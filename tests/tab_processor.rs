use bp_ntex::error::BrowseError;
use bp_ntex::tab::{Reply, TabAction, TabPhase, TabProcessor};

fn s(x: &str) -> String {
    x.to_string()
}

const EXAMPLE_PAGE: &str = "<html><head><title>Example Domain</title></head><body></body></html>";

#[test]
fn happy_path_returns_the_page_and_returns_focus() {
    let mut p = TabProcessor::new(s("https://example.com/"), 1500);
    assert_eq!(p.next_action(), TabAction::OpenTab);
    assert_eq!(p.step(Reply::Opened(s("tab-2"))), TabAction::SwitchTo(s("tab-2")));
    assert_eq!(p.step(Reply::Done), TabAction::Navigate(s("https://example.com/")));
    assert_eq!(p.step(Reply::Done), TabAction::Wait(1500));
    assert_eq!(p.step(Reply::Done), TabAction::ReadSource);
    assert_eq!(p.step(Reply::Source(s(EXAMPLE_PAGE))), TabAction::CloseTab);
    assert_eq!(p.step(Reply::Done), TabAction::ListWindows);
    assert_eq!(p.step(Reply::Windows(vec![s("tab-1"), s("tab-3")])), TabAction::SwitchTo(s("tab-1")));
    assert_eq!(p.step(Reply::Done), TabAction::Finish(Ok(s(EXAMPLE_PAGE))));
    assert!(p.is_finished());
}

#[test]
fn tab_creation_failure_needs_no_cleanup() {
    let mut p = TabProcessor::new(s("https://example.com/"), 10);
    assert_eq!(
        p.step(Reply::Failed(s("no tab"))),
        TabAction::Finish(Err(BrowseError::TabCreation(s("no tab"))))
    );
}

#[test]
fn window_switch_failure_is_reported() {
    let mut p = TabProcessor::new(s("https://example.com/"), 10);
    p.step(Reply::Opened(s("t")));
    assert_eq!(
        p.step(Reply::Failed(s("gone"))),
        TabAction::Finish(Err(BrowseError::WindowSwitch(s("gone"))))
    );
}

#[test]
fn navigation_failure_closes_the_tab_first() {
    let mut p = TabProcessor::new(s("not a url"), 10);
    p.step(Reply::Opened(s("t")));
    assert_eq!(p.step(Reply::Done), TabAction::Navigate(s("not a url")));
    assert_eq!(p.step(Reply::Failed(s("invalid argument"))), TabAction::CloseTab);
    assert_eq!(
        p.step(Reply::Failed(s("close failed too"))),
        TabAction::Finish(Err(BrowseError::Navigation(s("invalid argument"))))
    );
}

#[test]
fn extraction_failure_closes_the_tab_first() {
    let mut p = TabProcessor::new(s("https://example.com/"), 10);
    p.step(Reply::Opened(s("t")));
    p.step(Reply::Done);
    p.step(Reply::Done);
    assert_eq!(p.step(Reply::Done), TabAction::ReadSource);
    assert_eq!(p.step(Reply::Failed(s("stale"))), TabAction::CloseTab);
    assert_eq!(
        p.step(Reply::Done),
        TabAction::Finish(Err(BrowseError::Extraction(s("stale"))))
    );
}

#[test]
fn close_failure_after_extraction_still_succeeds() {
    let mut p = TabProcessor::new(s("https://example.com/"), 10);
    p.step(Reply::Opened(s("t")));
    p.step(Reply::Done);
    p.step(Reply::Done);
    p.step(Reply::Done);
    p.step(Reply::Source(s("<p>x</p>")));
    assert_eq!(p.step(Reply::Failed(s("cannot close"))), TabAction::ListWindows);
    assert_eq!(p.step(Reply::Windows(vec![])), TabAction::Finish(Ok(s("<p>x</p>"))));
}

#[test]
fn listing_failure_still_succeeds() {
    let mut p = TabProcessor::new(s("u"), 10);
    p.step(Reply::Opened(s("t")));
    p.step(Reply::Done);
    p.step(Reply::Done);
    p.step(Reply::Done);
    p.step(Reply::Source(s("page")));
    p.step(Reply::Done);
    assert_eq!(p.step(Reply::Failed(s("x"))), TabAction::Finish(Ok(s("page"))));
}

#[test]
fn a_reply_that_does_not_answer_is_ignored() {
    let mut p = TabProcessor::new(s("u"), 10);
    assert_eq!(p.step(Reply::Source(s("other page"))), TabAction::OpenTab);
    assert_eq!(p.phase, TabPhase::AwaitTab);
    p.step(Reply::Opened(s("t")));
    p.step(Reply::Done);
    p.step(Reply::Done);
    p.step(Reply::Done);
    assert_eq!(p.step(Reply::Done), TabAction::ReadSource);
}

#[test]
fn finished_processor_stays_finished() {
    let mut p = TabProcessor::new(s("u"), 10);
    p.step(Reply::Failed(s("e")));
    let done = TabAction::Finish(Err(BrowseError::TabCreation(s("e"))));
    assert_eq!(p.step(Reply::Done), done);
    assert_eq!(p.step(Reply::Failed(s("later"))), done);
}

#[test]
fn two_processors_keep_their_own_pages() {
    let mut a = TabProcessor::new(s("https://a.example/"), 1);
    let mut b = TabProcessor::new(s("https://b.example/"), 1);
    a.step(Reply::Opened(s("ta")));
    assert_eq!(a.step(Reply::Done), TabAction::Navigate(s("https://a.example/")));
    a.step(Reply::Done);
    a.step(Reply::Done);
    a.step(Reply::Source(s("page a")));
    a.step(Reply::Done);
    assert_eq!(a.step(Reply::Windows(vec![])), TabAction::Finish(Ok(s("page a"))));
    b.step(Reply::Opened(s("tb")));
    assert_eq!(b.step(Reply::Done), TabAction::Navigate(s("https://b.example/")));
    b.step(Reply::Done);
    b.step(Reply::Done);
    b.step(Reply::Source(s("page b")));
    b.step(Reply::Done);
    assert_eq!(b.step(Reply::Windows(vec![])), TabAction::Finish(Ok(s("page b"))));
}
