use presence_lsp::IdleTimer;

#[test]
fn resets_closer_than_the_window_emit_nothing() {
    let mut t = IdleTimer::new();
    let mut token = t.reset(0, 1000);
    for now in [400u64, 800, 1200, 1600] {
        assert!(!t.on_wake(token, now));
        token = t.reset(now, 1000);
    }
    assert!(!t.on_wake(token, 2599));
}

#[test]
fn one_emission_after_silence() {
    let mut t = IdleTimer::new();
    let old = t.reset(0, 1000);
    let token = t.reset(10, 1000);
    assert!(!t.on_wake(old, 5000));
    assert!(t.on_wake(token, 1010));
    assert!(!t.on_wake(token, 3000));
    assert_eq!(t.deadline, None);
}

#[test]
fn cancel_disarms() {
    let mut t = IdleTimer::new();
    let token = t.reset(0, 10);
    t.cancel();
    assert!(!t.on_wake(token, 100));
}

#[test]
fn deadline_saturates() {
    let mut t = IdleTimer::new();
    t.reset(u64::MAX - 1, 10);
    assert_eq!(t.deadline, Some(u64::MAX));
}
