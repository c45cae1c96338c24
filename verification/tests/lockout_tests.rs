use nivaro_backend::lockout::{
    LockState, LOCK_WINDOW_SECS, MAX_FAILED_ATTEMPTS, MAX_TIMESTAMP,
};

#[test]
fn fifth_failure_locks_for_the_window() {
    let mut state = LockState::new();
    for t in [100u64, 101, 102, 103] {
        state = state.on_failure(t);
        assert!(!state.is_locked(t));
    }
    assert_eq!(state, LockState::Unlocked { failed: 4 });
    state = state.on_failure(104);
    assert_eq!(state, LockState::Locked { until: 104 + LOCK_WINDOW_SECS });
    assert!(state.is_locked(104 + LOCK_WINDOW_SECS - 1));
    assert!(!state.is_locked(104 + LOCK_WINDOW_SECS));
}

#[test]
fn lock_window_is_fifteen_minutes_and_limit_is_five() {
    assert_eq!(LOCK_WINDOW_SECS, 15 * 60);
    assert_eq!(MAX_FAILED_ATTEMPTS, 5);
    assert_eq!(MAX_TIMESTAMP, 253_402_300_799);
}

#[test]
fn failures_count_up_from_zero() {
    let s = LockState::new();
    assert_eq!(s, LockState::Unlocked { failed: 0 });
    assert_eq!(s.on_failure(10), LockState::Unlocked { failed: 1 });
    assert_eq!(s.on_failure(10).on_failure(11), LockState::Unlocked { failed: 2 });
}

#[test]
fn success_clears_failures() {
    let s = LockState::Unlocked { failed: 3 };
    assert_eq!(s.on_success(50), LockState::Unlocked { failed: 0 });
}

#[test]
fn locked_state_ignores_failure_and_success_inside_the_window() {
    let s = LockState::Locked { until: 1000 };
    assert_eq!(s.on_failure(999), s);
    assert_eq!(s.on_success(999), s);
    assert!(s.is_locked(0));
}

#[test]
fn elapsed_lock_counts_as_four_failures() {
    let s = LockState::Locked { until: 1000 };
    assert!(!s.is_locked(1000));
    assert_eq!(s.on_failure(1000), LockState::Locked { until: 1000 + LOCK_WINDOW_SECS });
    assert_eq!(s.on_success(1000), LockState::Unlocked { failed: 0 });
}

#[test]
fn record_fields_round_trip_through_the_state() {
    let open = LockState::from_record(3, None);
    assert_eq!(open, LockState::Unlocked { failed: 3 });
    assert_eq!(open.failed_count(), 3);
    assert_eq!(open.locked_until(), None);
    let shut = LockState::from_record(5, Some(77));
    assert_eq!(shut, LockState::Locked { until: 77 });
    assert_eq!(shut.failed_count(), 5);
    assert_eq!(shut.locked_until(), Some(77));
}

#[test]
fn failure_at_the_latest_timestamp_does_not_overflow() {
    let s = LockState::Unlocked { failed: 4 }.on_failure(MAX_TIMESTAMP);
    assert_eq!(s, LockState::Locked { until: MAX_TIMESTAMP + LOCK_WINDOW_SECS });
}
