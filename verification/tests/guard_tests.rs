use alarm_clock::guard::{
    clock_sync_retry_again, clock_sync_wait_step, connect_wait_step, ensure_connected_again,
    WaitDecision,
};

#[test]
fn connect_wait_decisions() {
    // the link is up: done, whatever the counters say
    assert_eq!(connect_wait_step(true, false, 0), WaitDecision::Proceed);
    assert_eq!(connect_wait_step(true, true, 999999), WaitDecision::Proceed);
    // still down, within the caps: keep waiting
    assert_eq!(connect_wait_step(false, false, 0), WaitDecision::Retry);
    assert_eq!(connect_wait_step(false, true, 5000), WaitDecision::Retry);
    // a one-shot burst gives up quietly past its cap
    assert_eq!(connect_wait_step(false, true, 5001), WaitDecision::StopQuietly);
    // the hard ceiling is reported as a failure
    assert_eq!(connect_wait_step(false, false, 300000), WaitDecision::Retry);
    assert_eq!(connect_wait_step(false, false, 300001), WaitDecision::ReportFailure);
}

#[test]
fn clock_sync_wait_decisions() {
    assert_eq!(clock_sync_wait_step(true, true, 5), WaitDecision::Proceed);
    assert_eq!(clock_sync_wait_step(false, true, 3000), WaitDecision::Retry);
    assert_eq!(clock_sync_wait_step(false, true, 3001), WaitDecision::StopQuietly);
    assert_eq!(clock_sync_wait_step(false, false, 3001), WaitDecision::Retry);
    assert_eq!(clock_sync_wait_step(false, false, 300001), WaitDecision::ReportFailure);
}

#[test]
fn outer_loops_stop_when_satisfied_or_one_shot() {
    // persistent mode loops until connected
    assert!(ensure_connected_again(false, false));
    assert!(!ensure_connected_again(true, false));
    // one-shot mode returns control either way
    assert!(!ensure_connected_again(false, true));
    assert!(!ensure_connected_again(true, true));

    assert!(clock_sync_retry_again(false, false));
    assert!(!clock_sync_retry_again(true, false));
    assert!(!clock_sync_retry_again(false, true));
}
