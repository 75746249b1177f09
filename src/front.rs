//! What the HTTP front door answers: a fixed greeting on `/`, and on `/bp` the
//! page or a description of the stage that failed.
use vstd::prelude::*;
use crate::error::BrowseError;

verus! {

/// Text of the acknowledgement served on `GET /`.
pub const GREETING: &'static str = "Nyari apa bg?";

/// Status and body of an HTTP answer.
#[derive(Debug, PartialEq, Eq)]
pub struct Response {
    pub status: u16,
    pub body: String,
}

/// Status for a request that was served.
pub open spec fn ok_status() -> u16 {
    200
}

/// Status for a request that failed at some stage.
pub open spec fn failure_status() -> u16 {
    500
}

/// The answer to `POST /bp` for the result of serving it: the page on success,
/// else a description that names the failing stage.
pub open spec fn answer_for(outcome: Result<String, BrowseError>) -> (u16, Seq<char>) {
    match outcome {
        Ok(html) => (ok_status(), html@),
        Err(e) => (failure_status(), e.text()),
    }
}

/// The answer to `GET /`.
pub fn index() -> (r: Response)
    ensures
        r.status == ok_status(),
        r.body@ == GREETING@,
{
    Response { status: 200, body: String::from_str(GREETING) }
}

/// The answer to `POST /bp` once serving it is over.
pub fn respond(outcome: &Result<String, BrowseError>) -> (r: Response)
    ensures
        (r.status, r.body@) == answer_for(*outcome),
{
    match outcome {
        Ok(html) => Response { status: 200, body: html.clone() },
        Err(e) => Response { status: 500, body: e.describe() },
    }
}

} // verus!

verus! {

/// A navigation failure closes the request's tab before anything else, whatever the
/// close reports, and is answered with status 500 and a body that names navigation.
pub proof fn lemma_navigation_failure_answer(
    p: crate::tab::TabProcessor,
    msg: String,
    close_reply: crate::tab::Reply,
)
    requires
        p.phase is AwaitNavigation,
        close_reply is Done || close_reply is Failed,
    ensures
        p.after(crate::tab::Reply::Failed(msg)).waits_on() is CloseTab,
        p.after(crate::tab::Reply::Failed(msg)).after(close_reply).waits_on()
            == crate::tab::TabAction::Finish(Err(BrowseError::Navigation(msg))),
        answer_for(Err(BrowseError::Navigation(msg))).0 == failure_status(),
        answer_for(Err(BrowseError::Navigation(msg))).1 == "navigation error: "@ + msg@,
        answer_for(Err(BrowseError::Navigation(msg))).1.take(10) == "navigation"@,
{
    reveal_strlit("navigation error: ");
    reveal_strlit("navigation");
    assert(("navigation error: "@ + msg@).take(10) =~= "navigation"@);
}

} // verus!

verus! {

/// Requests served one after another on a healthy session: each uses the session
/// already held and none connects a new one; each is answered with status 200 and
/// the document that the backend read after navigating to that request's own URL,
/// once it leaves others in flight, and after parking the session when it leaves
/// none (`lemma_idle_release_neutralizes`). Requests served at
/// the same time get the same per-request guarantee as long as each runs its tab
/// sequence with exclusive use of the session's tabs.
pub proof fn lemma_requests_get_their_own_pages<S>(
    reg: crate::registry::SessionRegistry<S>,
    urls: Seq<String>,
    settle_ms: u64,
    replies: Seq<Seq<crate::tab::Reply>>,
    pages: Seq<String>,
)
    requires
        reg.current is Some,
        urls.len() == replies.len(),
        pages.len() == replies.len(),
        forall|i: int|
            0 <= i < replies.len() ==> crate::tab::page_held(
                #[trigger] crate::tab::run(
                    crate::tab::TabProcessor { url: urls[i], settle_ms, phase: crate::tab::TabPhase::AwaitTab },
                    replies[i],
                ).phase,
            ) == Some(pages[i]),
    ensures
        forall|i: int|
            0 <= i < replies.len() ==> {
                &&& (#[trigger] crate::registry::healthy_rounds(reg, (i + 1) as nat)).current == reg.current
                &&& crate::registry::healthy_rounds(reg, (i + 1) as nat).waits_on() is Use
            },
        forall|i: int|
            0 <= i < replies.len() ==> {
                let flow = (crate::flow::RequestFlow { phase: crate::flow::FlowPhase::Acquiring })
                    .after(crate::flow::FlowEvent::Done)
                    .after(crate::flow::FlowEvent::Browsed(Ok(#[trigger] pages[i])));
                &&& flow.waits_on() is Release
                &&& flow.after(crate::flow::FlowEvent::Released(false)).waits_on()
                    == crate::flow::FlowAction::Respond(Ok(pages[i]))
                &&& answer_for(Ok(pages[i])) == (ok_status(), pages[i]@)
            },
        forall|i: int|
            0 <= i < replies.len() ==> crate::tab::read_after_own_navigation(
                urls[i], settle_ms, #[trigger] replies[i], pages[i]),
{
    assert forall|i: int| 0 <= i < replies.len() implies {
        &&& (#[trigger] crate::registry::healthy_rounds(reg, (i + 1) as nat)).current == reg.current
        &&& crate::registry::healthy_rounds(reg, (i + 1) as nat).waits_on() is Use
    } by {
        crate::registry::lemma_healthy_session_reused(reg, (i + 1) as nat);
    }
    assert forall|i: int| 0 <= i < replies.len() implies crate::tab::read_after_own_navigation(
        urls[i], settle_ms, #[trigger] replies[i], pages[i]) by {
        crate::tab::lemma_page_is_own(urls[i], settle_ms, replies[i], pages[i]);
    }
}

} // verus!
