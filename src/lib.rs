//! A headless-browser request proxy: a client posts a URL, a shared browser
//! session loads it in a tab of its own, and the rendered HTML comes back.
//!
//! The library holds the decisions, as state machines over the backend's answers:
//! `registry` keeps the one shared session alive, `inflight` knows when it is idle,
//! `tab` runs one request's browse-and-extract sequence, `flow` sequences a request
//! from session to answer, and `front` says what the client is told. The caller
//! performs the backend calls they ask for.
//!
//! Beside the proxy: `proxy` builds proxy addresses for an HTTP client,
//! `console` and `command` hold a terminal input line and the commands typed on
//! it, and `store` describes the to-do manager's data file.
use vstd::prelude::*;

pub mod error;
pub mod tab;
pub mod front;
pub mod inflight;
pub mod flow;
pub mod registry;
pub mod request_id;
pub mod proxy;
pub mod console;
pub mod command;
pub mod store;

verus! {

/// Page that a session is parked on when no request uses it.
pub const DEFAULT_PAGE: &'static str = "about:blank";

/// Milliseconds to let a page render after navigation before its source is read.
pub const PAGE_LOAD_WAIT_MS: u64 = 1500;

/// Where the browser-automation backend listens.
pub const WEBDRIVER_URL: &'static str = "http://localhost:4444";

} // verus!
