use gymdeck3::watchdog::time_between;
use gymdeck3::{check_timeout, WatchdogState};

#[test]
fn test_watchdog_state_new() {
    let state = WatchdogState::new();
    assert!(state.time_since_heartbeat_ms() < 100);
}

#[test]
fn test_check_timeout_function() {
    assert!(!check_timeout(0, 5000, 10000));
    assert!(!check_timeout(0, 10000, 10000));
    assert!(check_timeout(0, 10001, 10000));
    assert!(!check_timeout(5000, 10000, 10000));
    assert!(check_timeout(5000, 15001, 10000));
}

#[test]
fn test_watchdog_state_clone() {
    let state1 = WatchdogState::new();
    let state2 = state1.clone();
    state1.heartbeat();
    let diff = state1.time_since_heartbeat_ms().abs_diff(state2.time_since_heartbeat_ms());
    assert!(diff < 10);
}

#[test]
fn test_watchdog_state_default() {
    let state = WatchdogState::default();
    assert!(state.time_since_heartbeat_ms() < 100);
}

#[test]
fn heartbeat_in_the_future_counts_as_no_gap() {
    assert_eq!(time_between(500, 100), 0);
    assert_eq!(time_between(100, 500), 400);
    assert!(!check_timeout(u64::MAX, 0, 0));
}

#[test]
fn fresh_state_is_not_timed_out() {
    let state = WatchdogState::new();
    state.heartbeat();
    assert!(!state.is_timed_out(1000));
}
