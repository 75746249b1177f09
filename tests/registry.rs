use bp_ntex::registry::{SessionAction, SessionRegistry, Stage};

#[test]
fn healthy_session_is_reused_across_requests() {
    let mut reg: SessionRegistry<u32> = SessionRegistry::new();
    assert_eq!(reg.next_action(), SessionAction::Acquire);
    assert_eq!(reg.acquire(), SessionAction::Connect);
    reg.connected(Ok(1));
    assert_eq!(reg.parked(Ok(())), SessionAction::Use);
    for _ in 0..5 {
        assert_eq!(reg.acquire(), SessionAction::Probe);
        assert_eq!(reg.probed(true), SessionAction::Use);
        assert_eq!(reg.current(), Some(&1));
    }
}

#[test]
fn get_or_create_twice_returns_the_same_session() {
    let mut reg: SessionRegistry<String> = SessionRegistry::new();
    reg.acquire();
    reg.connected(Ok("session-a".to_string()));
    reg.parked(Ok(()));
    reg.acquire();
    reg.probed(true);
    let first = reg.current().cloned();
    reg.acquire();
    reg.probed(true);
    let second = reg.current().cloned();
    assert_eq!(first, Some("session-a".to_string()));
    assert_eq!(first, second);
}

#[test]
fn failed_probe_replaces_the_session() {
    let mut reg: SessionRegistry<u32> = SessionRegistry::new();
    reg.acquire();
    reg.connected(Ok(1));
    reg.parked(Ok(()));
    assert_eq!(reg.acquire(), SessionAction::Probe);
    assert_eq!(reg.probed(false), SessionAction::Connect);
    assert_eq!(reg.current(), None);
    assert_eq!(reg.connected(Ok(2)), SessionAction::Park);
    assert_eq!(reg.parked(Ok(())), SessionAction::Use);
    assert_eq!(reg.current(), Some(&2));
}

#[test]
fn failed_probe_and_failed_connect_give_no_session() {
    let mut reg: SessionRegistry<u32> = SessionRegistry::new();
    reg.acquire();
    reg.connected(Ok(1));
    reg.parked(Ok(()));
    reg.acquire();
    reg.probed(false);
    assert_eq!(reg.connected(Err("refused".to_string())), SessionAction::Fail("refused".to_string()));
    assert_eq!(reg.current(), None);
    assert_eq!(reg.acquire(), SessionAction::Connect);
}

#[test]
fn park_failure_drops_the_new_session() {
    let mut reg: SessionRegistry<u32> = SessionRegistry::new();
    reg.acquire();
    reg.connected(Ok(9));
    assert_eq!(reg.parked(Err("no page".to_string())), SessionAction::Fail("no page".to_string()));
    assert_eq!(reg.current(), None);
    assert_eq!(reg.fresh(), None);
    assert_eq!(reg.stage, Stage::Failed("no page".to_string()));
}

#[test]
fn reports_out_of_turn_change_nothing() {
    let mut reg: SessionRegistry<u32> = SessionRegistry::new();
    assert_eq!(reg.probed(false), SessionAction::Acquire);
    assert_eq!(reg.parked(Ok(())), SessionAction::Acquire);
    assert_eq!(reg.acquire(), SessionAction::Connect);
    assert_eq!(reg.probed(true), SessionAction::Connect);
    assert_eq!(reg.current(), None);
}
