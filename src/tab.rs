//! Serving one request in a tab of its own: open a tab, make it active, load the
//! URL, let it render, read the document, close the tab and hand the session's
//! focus back to a window that is still open.
//!
//! The backend calls are made by the caller; the machine decides which call comes
//! next from the answers to the previous ones.
use vstd::prelude::*;
use crate::error::BrowseError;

verus! {

/// A call that the processor asks of the automation backend, or its final result.
#[derive(Debug, PartialEq, Eq)]
pub enum TabAction {
    /// Open a new tab; answered by `Reply::Opened` with its handle.
    OpenTab,
    /// Make the window with this handle the active one; answered by `Reply::Done`.
    SwitchTo(String),
    /// Load this URL in the active window; answered by `Reply::Done`.
    Navigate(String),
    /// Pause for this many milliseconds; answered by `Reply::Done`.
    Wait(u64),
    /// Read the active window's rendered document; answered by `Reply::Source`.
    ReadSource,
    /// Close the active window; answered by `Reply::Done`.
    CloseTab,
    /// List the handles of the open windows; answered by `Reply::Windows`.
    ListWindows,
    /// Processing is over, with this result.
    Finish(Result<String, BrowseError>),
}

/// The backend's answer to the pending call. `Failed` answers any call.
#[derive(Debug, PartialEq, Eq)]
pub enum Reply {
    Opened(String),
    Done,
    Source(String),
    Windows(Vec<String>),
    Failed(String),
}

/// Which answer the processor is waiting for, with what it holds so far.
#[derive(Debug, PartialEq, Eq)]
pub enum TabPhase {
    AwaitTab,
    /// The new tab's handle.
    AwaitSwitch(String),
    AwaitNavigation,
    AwaitSettle,
    AwaitSource,
    /// Best-effort close of the tab after a failure; the error is the result.
    AwaitCleanup(BrowseError),
    /// Close of the tab once the document is in hand.
    AwaitClose(String),
    AwaitWindows(String),
    /// The document, and the window that focus goes back to.
    AwaitReturn(String, String),
    Finished(Result<String, BrowseError>),
}

/// The state of one request's browse-and-extract sequence.
pub struct TabProcessor {
    pub url: String,
    pub settle_ms: u64,
    pub phase: TabPhase,
}

/// Whether `reply` answers the call that `phase` waits for.
pub open spec fn answers(phase: TabPhase, reply: Reply) -> bool {
    match reply {
        Reply::Failed(_) => phase !is Finished,
        Reply::Opened(_) => phase is AwaitTab,
        Reply::Done => {
            ||| phase is AwaitSwitch
            ||| phase is AwaitNavigation
            ||| phase is AwaitSettle
            ||| phase is AwaitCleanup
            ||| phase is AwaitClose
            ||| phase is AwaitReturn
        },
        Reply::Source(_) => phase is AwaitSource,
        Reply::Windows(_) => phase is AwaitWindows,
    }
}

/// The phase after `reply`, which answers the call that `phase` waits for.
pub open spec fn advance(phase: TabPhase, reply: Reply) -> TabPhase {
    match phase {
        TabPhase::AwaitTab => match reply {
            Reply::Opened(h) => TabPhase::AwaitSwitch(h),
            Reply::Failed(e) => TabPhase::Finished(Err(BrowseError::TabCreation(e))),
            _ => phase,
        },
        TabPhase::AwaitSwitch(_) => match reply {
            Reply::Failed(e) => TabPhase::Finished(Err(BrowseError::WindowSwitch(e))),
            _ => TabPhase::AwaitNavigation,
        },
        TabPhase::AwaitNavigation => match reply {
            Reply::Failed(e) => TabPhase::AwaitCleanup(BrowseError::Navigation(e)),
            _ => TabPhase::AwaitSettle,
        },
        TabPhase::AwaitSettle => TabPhase::AwaitSource,
        TabPhase::AwaitSource => match reply {
            Reply::Source(html) => TabPhase::AwaitClose(html),
            Reply::Failed(e) => TabPhase::AwaitCleanup(BrowseError::Extraction(e)),
            _ => phase,
        },
        TabPhase::AwaitCleanup(err) => TabPhase::Finished(Err(err)),
        TabPhase::AwaitClose(html) => TabPhase::AwaitWindows(html),
        TabPhase::AwaitWindows(html) => match reply {
            Reply::Windows(ws) => if ws@.len() > 0 {
                TabPhase::AwaitReturn(html, ws@[0])
            } else {
                TabPhase::Finished(Ok(html))
            },
            _ => TabPhase::Finished(Ok(html)),
        },
        TabPhase::AwaitReturn(html, _) => TabPhase::Finished(Ok(html)),
        TabPhase::Finished(_) => phase,
    }
}

/// The call that a processor in phase `phase` waits on.
pub open spec fn pending(phase: TabPhase, url: String, settle_ms: u64) -> TabAction {
    match phase {
        TabPhase::AwaitTab => TabAction::OpenTab,
        TabPhase::AwaitSwitch(h) => TabAction::SwitchTo(h),
        TabPhase::AwaitNavigation => TabAction::Navigate(url),
        TabPhase::AwaitSettle => TabAction::Wait(settle_ms),
        TabPhase::AwaitSource => TabAction::ReadSource,
        TabPhase::AwaitCleanup(_) => TabAction::CloseTab,
        TabPhase::AwaitClose(_) => TabAction::CloseTab,
        TabPhase::AwaitWindows(_) => TabAction::ListWindows,
        TabPhase::AwaitReturn(_, w) => TabAction::SwitchTo(w),
        TabPhase::Finished(r) => TabAction::Finish(r),
    }
}

impl TabProcessor {
    /// The call this processor waits on.
    pub open spec fn waits_on(self) -> TabAction {
        pending(self.phase, self.url, self.settle_ms)
    }

    /// The processor after `reply`: a reply that does not answer the pending call
    /// changes nothing, so the call stays pending.
    pub open spec fn after(self, reply: Reply) -> TabProcessor {
        if answers(self.phase, reply) {
            TabProcessor { phase: advance(self.phase, reply), ..self }
        } else {
            self
        }
    }

    /// A processor for `url` that waits `settle_ms` after navigating; its first call opens a tab.
    pub fn new(url: String, settle_ms: u64) -> (r: TabProcessor)
        ensures
            r.url == url,
            r.settle_ms == settle_ms,
            r.phase is AwaitTab,
            r.waits_on() is OpenTab,
    {
        TabProcessor { url, settle_ms, phase: TabPhase::AwaitTab }
    }

    /// The call this processor waits on.
    pub fn next_action(&self) -> (r: TabAction)
        ensures
            r == self.waits_on(),
    {
        match &self.phase {
            TabPhase::AwaitTab => TabAction::OpenTab,
            TabPhase::AwaitSwitch(h) => TabAction::SwitchTo(h.clone()),
            TabPhase::AwaitNavigation => TabAction::Navigate(self.url.clone()),
            TabPhase::AwaitSettle => TabAction::Wait(self.settle_ms),
            TabPhase::AwaitSource => TabAction::ReadSource,
            TabPhase::AwaitCleanup(_) => TabAction::CloseTab,
            TabPhase::AwaitClose(_) => TabAction::CloseTab,
            TabPhase::AwaitWindows(_) => TabAction::ListWindows,
            TabPhase::AwaitReturn(_, w) => TabAction::SwitchTo(w.clone()),
            TabPhase::Finished(r) => TabAction::Finish(clone_result(r)),
        }
    }

    /// Whether processing is over.
    pub fn is_finished(&self) -> (r: bool)
        ensures
            r == (self.phase is Finished),
    {
        matches!(self.phase, TabPhase::Finished(_))
    }

    /// Takes the backend's answer to the pending call and returns the next call.
    pub fn step(&mut self, reply: Reply) -> (r: TabAction)
        ensures
            *final(self) == old(self).after(reply),
            r == final(self).waits_on(),
    {
        let answered = match (&self.phase, &reply) {
            (TabPhase::Finished(_), _) => false,
            (_, Reply::Failed(_)) => true,
            (TabPhase::AwaitTab, Reply::Opened(_)) => true,
            (TabPhase::AwaitSwitch(_), Reply::Done) => true,
            (TabPhase::AwaitNavigation, Reply::Done) => true,
            (TabPhase::AwaitSettle, Reply::Done) => true,
            (TabPhase::AwaitCleanup(_), Reply::Done) => true,
            (TabPhase::AwaitClose(_), Reply::Done) => true,
            (TabPhase::AwaitReturn(_, _), Reply::Done) => true,
            (TabPhase::AwaitSource, Reply::Source(_)) => true,
            (TabPhase::AwaitWindows(_), Reply::Windows(_)) => true,
            _ => false,
        };
        if answered {
            let mut phase = TabPhase::AwaitTab;
            core::mem::swap(&mut phase, &mut self.phase);
            self.phase = next_phase(phase, reply);
        }
        self.next_action()
    }
}

fn clone_result(r: &Result<String, BrowseError>) -> (c: Result<String, BrowseError>)
    ensures
        c == *r,
{
    match r {
        Ok(s) => Ok(s.clone()),
        Err(e) => Err(e.clone()),
    }
}

fn next_phase(phase: TabPhase, reply: Reply) -> (r: TabPhase)
    requires
        answers(phase, reply),
    ensures
        r == advance(phase, reply),
{
    match phase {
        TabPhase::AwaitTab => match reply {
            Reply::Opened(h) => TabPhase::AwaitSwitch(h),
            Reply::Failed(e) => TabPhase::Finished(Err(BrowseError::TabCreation(e))),
            _ => TabPhase::AwaitTab,
        },
        TabPhase::AwaitSwitch(_) => match reply {
            Reply::Failed(e) => TabPhase::Finished(Err(BrowseError::WindowSwitch(e))),
            _ => TabPhase::AwaitNavigation,
        },
        TabPhase::AwaitNavigation => match reply {
            Reply::Failed(e) => TabPhase::AwaitCleanup(BrowseError::Navigation(e)),
            _ => TabPhase::AwaitSettle,
        },
        TabPhase::AwaitSettle => TabPhase::AwaitSource,
        TabPhase::AwaitSource => match reply {
            Reply::Source(html) => TabPhase::AwaitClose(html),
            Reply::Failed(e) => TabPhase::AwaitCleanup(BrowseError::Extraction(e)),
            _ => TabPhase::AwaitSource,
        },
        TabPhase::AwaitCleanup(err) => TabPhase::Finished(Err(err)),
        TabPhase::AwaitClose(html) => TabPhase::AwaitWindows(html),
        TabPhase::AwaitWindows(html) => match reply {
            Reply::Windows(ws) => if ws.len() > 0 {
                let first = ws[0].clone();
                TabPhase::AwaitReturn(html, first)
            } else {
                TabPhase::Finished(Ok(html))
            },
            _ => TabPhase::Finished(Ok(html)),
        },
        TabPhase::AwaitReturn(html, _) => TabPhase::Finished(Ok(html)),
        TabPhase::Finished(r) => TabPhase::Finished(r),
    }
}

} // verus!

verus! {

/// The processor after each of `replies` in turn.
pub open spec fn run(p: TabProcessor, replies: Seq<Reply>) -> TabProcessor
    decreases replies.len(),
{
    if replies.len() == 0 {
        p
    } else {
        run(p, replies.drop_last()).after(replies.last())
    }
}

/// The document that a processor in `phase` holds, if any.
pub open spec fn page_held(phase: TabPhase) -> Option<String> {
    match phase {
        TabPhase::AwaitClose(h) => Some(h),
        TabPhase::AwaitWindows(h) => Some(h),
        TabPhase::AwaitReturn(h, _) => Some(h),
        TabPhase::Finished(Ok(h)) => Some(h),
        _ => None,
    }
}

/// Whether, among `replies`, the backend reported a navigation to `url` as done
/// and later answered a read of the document with `html`.
pub open spec fn read_after_own_navigation(url: String, settle_ms: u64, replies: Seq<Reply>, html: String) -> bool {
    exists|i: int, j: int|
        0 <= j < i < replies.len()
            && (#[trigger] run(TabProcessor { url, settle_ms, phase: TabPhase::AwaitTab }, replies.take(j))).waits_on()
                == TabAction::Navigate(url)
            && replies[j] is Done
            && (#[trigger] run(TabProcessor { url, settle_ms, phase: TabPhase::AwaitTab }, replies.take(i))).waits_on()
                is ReadSource
            && replies[i] == Reply::Source(html)
}

/// A processor keeps its URL and its settle delay whatever the backend answers.
pub proof fn lemma_run_keeps_target(p: TabProcessor, replies: Seq<Reply>)
    ensures
        run(p, replies).url == p.url,
        run(p, replies).settle_ms == p.settle_ms,
    decreases replies.len(),
{
    if replies.len() > 0 {
        lemma_run_keeps_target(p, replies.drop_last());
    }
}

proof fn lemma_prefix_of_drop_last(replies: Seq<Reply>, k: int)
    requires
        0 <= k < replies.len() - 1,
    ensures
        replies.drop_last().take(k) == replies.take(k),
        replies.drop_last()[k] == replies[k],
{
    assert(replies.drop_last().take(k) =~= replies.take(k));
}

/// A processor only waits to settle or to read the document after the backend
/// reported, in answer to a navigation call, that navigation worked.
pub proof fn lemma_reading_follows_navigation(p: TabProcessor, replies: Seq<Reply>)
    requires
        run(p, replies).phase is AwaitSettle || run(p, replies).phase is AwaitSource,
        !(p.phase is AwaitSettle || p.phase is AwaitSource),
    ensures
        exists|j: int|
            0 <= j < replies.len() && (#[trigger] run(p, replies.take(j))).phase is AwaitNavigation
                && replies[j] is Done,
    decreases replies.len(),
{
    let prev = run(p, replies.drop_last());
    let last = replies.last();
    let n = replies.len() - 1;
    assert(replies.take(n) =~= replies.drop_last());
    if prev.phase is AwaitSettle || prev.phase is AwaitSource {
        lemma_reading_follows_navigation(p, replies.drop_last());
        let j = choose|j: int|
            0 <= j < replies.drop_last().len() && (#[trigger] run(p, replies.drop_last().take(j))).phase is AwaitNavigation
                && replies.drop_last()[j] is Done;
        lemma_prefix_of_drop_last(replies, j);
        assert(run(p, replies.take(j)).phase is AwaitNavigation);
    } else {
        assert(run(p, replies.take(n)) == prev);
    }
}

/// The document a processor returns is the one the backend read for it, after
/// the processor navigated to its own URL: a request never gets another's page.
pub proof fn lemma_page_is_own(url: String, settle_ms: u64, replies: Seq<Reply>, html: String)
    requires
        page_held(run(TabProcessor { url, settle_ms, phase: TabPhase::AwaitTab }, replies).phase) == Some(html),
    ensures
        exists|i: int, j: int|
            0 <= j < i < replies.len()
                && (#[trigger] run(TabProcessor { url, settle_ms, phase: TabPhase::AwaitTab }, replies.take(j))).waits_on()
                    == TabAction::Navigate(url)
                && replies[j] is Done
                && (#[trigger] run(TabProcessor { url, settle_ms, phase: TabPhase::AwaitTab }, replies.take(i))).waits_on()
                    is ReadSource
                && replies[i] == Reply::Source(html),
    decreases replies.len(),
{
    let p = TabProcessor { url, settle_ms, phase: TabPhase::AwaitTab };
    let prev = run(p, replies.drop_last());
    let n = replies.len() - 1;
    assert(replies.take(n) =~= replies.drop_last());
    if page_held(prev.phase) == Some(html) {
        lemma_page_is_own(url, settle_ms, replies.drop_last(), html);
        let (i, j) = choose|i: int, j: int|
            0 <= j < i < replies.drop_last().len()
                && (#[trigger] run(p, replies.drop_last().take(j))).waits_on() == TabAction::Navigate(url)
                && replies.drop_last()[j] is Done
                && (#[trigger] run(p, replies.drop_last().take(i))).waits_on() is ReadSource
                && replies.drop_last()[i] == Reply::Source(html);
        lemma_prefix_of_drop_last(replies, i);
        lemma_prefix_of_drop_last(replies, j);
        assert(run(p, replies.take(i)).waits_on() is ReadSource);
        assert(run(p, replies.take(j)).waits_on() == TabAction::Navigate(url));
    } else {
        assert(prev.phase is AwaitSource);
        assert(run(p, replies.take(n)) == prev);
        lemma_reading_follows_navigation(p, replies.drop_last());
        let j = choose|j: int|
            0 <= j < replies.drop_last().len() && (#[trigger] run(p, replies.drop_last().take(j))).phase is AwaitNavigation
                && replies.drop_last()[j] is Done;
        lemma_prefix_of_drop_last(replies, j);
        lemma_run_keeps_target(p, replies.take(j));
        assert(run(p, replies.take(j)).waits_on() == TabAction::Navigate(url));
        assert(run(p, replies.take(n)).waits_on() is ReadSource);
    }
}

} // verus!

verus! {

/// Whether, among the first replies, one answered a call to close the tab.
pub open spec fn closed_at(p: TabProcessor, replies: Seq<Reply>, i: int) -> bool {
    &&& 0 <= i < replies.len()
    &&& run(p, replies.take(i)).waits_on() is CloseTab
    &&& answers(run(p, replies.take(i)).phase, replies[i])
}

proof fn lemma_listing_follows_close(p: TabProcessor, replies: Seq<Reply>)
    requires
        run(p, replies).phase is AwaitWindows || run(p, replies).phase is AwaitReturn,
        p.phase is AwaitTab,
    ensures
        exists|i: int| closed_at(p, replies, i),
    decreases replies.len(),
{
    let prev = run(p, replies.drop_last());
    let n = replies.len() - 1;
    assert(replies.take(n) =~= replies.drop_last());
    if prev.phase is AwaitWindows || prev.phase is AwaitReturn {
        lemma_listing_follows_close(p, replies.drop_last());
        let i = choose|i: int| closed_at(p, replies.drop_last(), i);
        lemma_prefix_of_drop_last(replies, i);
        assert(closed_at(p, replies, i));
    } else {
        assert(closed_at(p, replies, n));
    }
}

/// A tab that was made the active window is never left open by the processor:
/// whatever the backend answers, a finished processor asked to close it, unless
/// it failed before opening it or while switching to it.
pub proof fn lemma_tab_closed_before_finish(
    url: String,
    settle_ms: u64,
    replies: Seq<Reply>,
    result: Result<String, BrowseError>,
)
    requires
        run(TabProcessor { url, settle_ms, phase: TabPhase::AwaitTab }, replies).phase
            == TabPhase::Finished(result),
        !(result matches Err(BrowseError::TabCreation(_))),
        !(result matches Err(BrowseError::WindowSwitch(_))),
    ensures
        exists|i: int| closed_at(TabProcessor { url, settle_ms, phase: TabPhase::AwaitTab }, replies, i),
    decreases replies.len(),
{
    let p = TabProcessor { url, settle_ms, phase: TabPhase::AwaitTab };
    let prev = run(p, replies.drop_last());
    let n = replies.len() - 1;
    assert(replies.take(n) =~= replies.drop_last());
    if prev.phase is Finished {
        lemma_tab_closed_before_finish(url, settle_ms, replies.drop_last(), result);
        let i = choose|i: int| closed_at(p, replies.drop_last(), i);
        lemma_prefix_of_drop_last(replies, i);
        assert(closed_at(p, replies, i));
    } else if prev.phase is AwaitWindows || prev.phase is AwaitReturn {
        lemma_listing_follows_close(p, replies.drop_last());
        let i = choose|i: int| closed_at(p, replies.drop_last(), i);
        lemma_prefix_of_drop_last(replies, i);
        assert(closed_at(p, replies, i));
    } else {
        assert(prev.phase is AwaitCleanup);
        assert(closed_at(p, replies, n));
    }
}

} // verus!
