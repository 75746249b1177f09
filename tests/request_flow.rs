use bp_ntex::error::BrowseError;
use bp_ntex::flow::{FlowAction, FlowEvent, RequestFlow};
use bp_ntex::front::{index, respond};
use bp_ntex::inflight::InFlight;
use bp_ntex::registry::{SessionAction, SessionRegistry};
use bp_ntex::tab::{Reply, TabAction, TabProcessor};
use bp_ntex::PAGE_LOAD_WAIT_MS;

fn s(x: &str) -> String {
    x.to_string()
}

const EXAMPLE_PAGE: &str =
    "<!doctype html><html><head><title>Example Domain</title></head><body><h1>Example Domain</h1></body></html>";

#[test]
fn cold_start_post_bp_serves_example_domain() {
    let mut requests = InFlight::new();
    assert!(requests.begin(123456));
    let mut registry: SessionRegistry<u32> = SessionRegistry::new();
    let mut flow = RequestFlow::new();
    assert_eq!(flow.next_action(), FlowAction::AcquireSession);

    // cold start: no session yet, one is connected and parked
    assert_eq!(registry.acquire(), SessionAction::Connect);
    assert_eq!(registry.connected(Ok(7)), SessionAction::Park);
    assert_eq!(registry.fresh(), Some(&7));
    assert_eq!(registry.parked(Ok(())), SessionAction::Use);
    assert_eq!(registry.current(), Some(&7));
    assert_eq!(flow.step(FlowEvent::Done), FlowAction::Browse);

    let mut tab = TabProcessor::new(s("https://example.com/"), PAGE_LOAD_WAIT_MS);
    assert_eq!(tab.next_action(), TabAction::OpenTab);
    assert!(matches!(tab.step(Reply::Opened(s("w2"))), TabAction::SwitchTo(_)));
    assert_eq!(tab.step(Reply::Done), TabAction::Navigate(s("https://example.com/")));
    assert_eq!(tab.step(Reply::Done), TabAction::Wait(1500));
    assert_eq!(tab.step(Reply::Done), TabAction::ReadSource);
    assert_eq!(tab.step(Reply::Source(s(EXAMPLE_PAGE))), TabAction::CloseTab);
    assert_eq!(tab.step(Reply::Done), TabAction::ListWindows);
    assert_eq!(tab.step(Reply::Windows(vec![s("w1")])), TabAction::SwitchTo(s("w1")));
    let result = match tab.step(Reply::Done) {
        TabAction::Finish(r) => r,
        other => panic!("unexpected {:?}", other),
    };

    assert_eq!(flow.step(FlowEvent::Browsed(result)), FlowAction::Release);
    let idle = requests.end(123456);
    assert!(idle);
    assert_eq!(flow.step(FlowEvent::Released(idle)), FlowAction::AcquireSession);
    assert_eq!(registry.acquire(), SessionAction::Probe);
    assert_eq!(registry.probed(true), SessionAction::Use);
    assert_eq!(flow.step(FlowEvent::Done), FlowAction::ClearCookies);
    assert_eq!(flow.step(FlowEvent::Done), FlowAction::Park);
    let answer = match flow.step(FlowEvent::Done) {
        FlowAction::Respond(r) => respond(&r),
        other => panic!("unexpected {:?}", other),
    };
    assert_eq!(answer.status, 200);
    assert!(answer.body.contains("<title>Example Domain</title>"));
    assert_eq!(answer.body, EXAMPLE_PAGE);
}

#[test]
fn navigation_failure_answers_500_naming_navigation() {
    let mut tab = TabProcessor::new(s("htp:/broken"), 10);
    tab.step(Reply::Opened(s("w2")));
    tab.step(Reply::Done);
    assert_eq!(tab.step(Reply::Failed(s("invalid argument: malformed URL"))), TabAction::CloseTab);
    let result = match tab.step(Reply::Done) {
        TabAction::Finish(r) => r,
        other => panic!("unexpected {:?}", other),
    };
    let answer = respond(&result);
    assert_eq!(answer.status, 500);
    assert_eq!(answer.body, "navigation error: invalid argument: malformed URL");
    assert!(answer.body.starts_with("navigation"));
}

#[test]
fn busy_release_answers_without_neutralizing() {
    let mut requests = InFlight::new();
    assert!(requests.begin(1));
    assert!(requests.begin(2));
    let mut flow = RequestFlow::new();
    flow.step(FlowEvent::Done);
    flow.step(FlowEvent::Browsed(Ok(s("page"))));
    let idle = requests.end(1);
    assert!(!idle);
    assert_eq!(flow.step(FlowEvent::Released(idle)), FlowAction::Respond(Ok(s("page"))));
}

#[test]
fn idle_release_neutralizes_even_when_cookies_fail() {
    let mut flow = RequestFlow::new();
    flow.step(FlowEvent::Done);
    flow.step(FlowEvent::Browsed(Ok(s("page"))));
    assert_eq!(flow.step(FlowEvent::Released(true)), FlowAction::AcquireSession);
    assert_eq!(flow.step(FlowEvent::Done), FlowAction::ClearCookies);
    assert_eq!(flow.step(FlowEvent::Failed(s("no cookies"))), FlowAction::Park);
    assert_eq!(flow.step(FlowEvent::Failed(s("park failed"))), FlowAction::Respond(Ok(s("page"))));
}

#[test]
fn neutralization_skips_cleanup_without_a_session() {
    let mut flow = RequestFlow::new();
    flow.step(FlowEvent::Done);
    flow.step(FlowEvent::Browsed(Ok(s("page"))));
    flow.step(FlowEvent::Released(true));
    assert_eq!(flow.step(FlowEvent::Failed(s("backend down"))), FlowAction::Respond(Ok(s("page"))));
}

#[test]
fn session_failure_releases_and_answers_500() {
    let mut flow = RequestFlow::new();
    assert_eq!(flow.step(FlowEvent::Failed(s("connection refused"))), FlowAction::Release);
    let action = flow.step(FlowEvent::Released(false));
    let expected = Err(BrowseError::SessionCreation(s("connection refused")));
    assert_eq!(action, FlowAction::Respond(expected.clone()));
    let answer = respond(&expected);
    assert_eq!(answer.status, 500);
    assert_eq!(answer.body, "WebDriver error: connection refused");
}

#[test]
fn events_that_do_not_report_are_ignored() {
    let mut flow = RequestFlow::new();
    assert_eq!(flow.step(FlowEvent::Released(true)), FlowAction::AcquireSession);
    flow.step(FlowEvent::Done);
    assert_eq!(flow.step(FlowEvent::Done), FlowAction::Browse);
}

#[test]
fn index_acknowledges() {
    let r = index();
    assert_eq!(r.status, 200);
    assert_eq!(r.body, "Nyari apa bg?");
}

#[test]
fn every_stage_is_named_in_the_answer() {
    let cases = [
        (BrowseError::TabCreation(s("m")), "tab creation error: m"),
        (BrowseError::WindowSwitch(s("m")), "window switch error: m"),
        (BrowseError::Navigation(s("m")), "navigation error: m"),
        (BrowseError::Extraction(s("m")), "extraction error: m"),
        (BrowseError::SessionCreation(s("m")), "WebDriver error: m"),
    ];
    for (e, text) in cases {
        assert_eq!(e.describe(), text);
        let r = respond(&Err(e));
        assert_eq!(r.status, 500);
        assert_eq!(r.body, text);
    }
}

#[test]
fn session_failure_of_the_last_request_answers_at_once() {
    let mut requests = InFlight::new();
    assert!(requests.begin(7));
    let mut flow = RequestFlow::new();
    assert_eq!(flow.step(FlowEvent::Failed(s("connection refused"))), FlowAction::Release);
    let idle = requests.end(7);
    assert!(idle);
    assert_eq!(
        flow.step(FlowEvent::Released(idle)),
        FlowAction::Respond(Err(BrowseError::SessionCreation(s("connection refused"))))
    );
}
