use presence_lsp::{
    after_failed_attempt, retry_delay_ms, retry_delays, ConnectionEvent, ConnectionManager,
    ConnectionState, KillPlan, PresenceError, PresenceService, RetryStep, SendPlan,
};

#[test]
fn retry_delays_for_five_attempts() {
    assert_eq!(retry_delays(5), vec![500, 1000, 2000, 4000, 8000]);
}

#[test]
fn retry_delay_is_capped() {
    assert_eq!(retry_delay_ms(5), 10000);
    assert_eq!(retry_delay_ms(40), 10000);
    assert_eq!(retry_delay_ms(0), 500);
}

#[test]
fn retries_stop_after_the_last_attempt() {
    assert_eq!(after_failed_attempt(0), RetryStep::Wait(500));
    assert_eq!(after_failed_attempt(3), RetryStep::Wait(4000));
    assert_eq!(after_failed_attempt(4), RetryStep::GiveUp);
}

#[test]
fn lifecycle() {
    let mut c = ConnectionManager::new(1000);
    assert_eq!(c.state, ConnectionState::Uninitialized);
    assert!(matches!(c.connect(), Err(PresenceError::Discord(_))));
    assert_eq!(c.plan_send(), SendPlan::NotInitialized);
    c.create_client("app");
    assert_eq!(c.state, ConnectionState::Created);
    assert!(c.connect().is_ok());
    c.on_event(ConnectionEvent::ConnectSucceeded);
    assert!(c.is_connected());
    assert_eq!(c.plan_send(), SendPlan::Send);
    c.on_event(ConnectionEvent::SendSucceeded);
    assert!(c.is_connected());
    c.on_event(ConnectionEvent::SendFailed);
    assert_eq!(c.state, ConnectionState::Disconnected);
    assert_eq!(c.plan_send(), SendPlan::ReconnectFirst);
    c.on_event(ConnectionEvent::ConnectSucceeded);
    assert_eq!(c.kill(), KillPlan::Close);
    c.on_event(ConnectionEvent::CloseDone);
    assert_eq!(c.state, ConnectionState::Closed);
}

#[test]
fn shutdown_twice_is_harmless() {
    let mut c = ConnectionManager::new(0);
    c.create_client("app");
    c.on_event(ConnectionEvent::ConnectSucceeded);
    assert!(PresenceService::shutdown(&c));
    c.on_event(ConnectionEvent::CloseDone);
    assert!(!PresenceService::shutdown(&c));
    assert_eq!(c.kill(), KillPlan::AlreadyClosed);
    let fresh = ConnectionManager::new(0);
    assert!(!PresenceService::shutdown(&fresh));
    assert!(!PresenceService::shutdown(&fresh));
}

#[test]
fn payload_uses_the_fixed_start_and_the_repository_button() {
    let mut c = ConnectionManager::new(1_700_000_000);
    c.create_client("app");
    let s = |x: &str| Some(x.to_string());
    let p = c
        .change_activity(s("st"), s("de"), None, None, None, s("Zed"), s("https://example.com/r"))
        .unwrap();
    assert_eq!(p.start_timestamp, 1_700_000_000);
    assert_eq!(p.state, s("st"));
    assert_eq!(p.small_text, s("Zed"));
    assert_eq!(p.button, Some(("View Repository".to_string(), "https://example.com/r".to_string())));
    let q = c.change_activity(None, None, None, None, None, None, None).unwrap();
    assert_eq!(q.start_timestamp, 1_700_000_000);
    assert_eq!(q.button, None);
}

#[test]
fn payload_errors() {
    let c = ConnectionManager::new(0);
    assert!(matches!(
        c.change_activity(None, None, None, None, None, None, None),
        Err(PresenceError::Discord(_))
    ));
    let mut big = ConnectionManager::new(u64::MAX);
    big.create_client("app");
    assert!(big.change_activity(None, None, None, None, None, None, None).is_err());
    assert!(c.clear_activity().is_err());
}
