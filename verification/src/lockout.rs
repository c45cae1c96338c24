//! The account lockout policy: a small state machine over the number of
//! failed attempts and the end of the lock window.
//!
//! Time is counted in whole seconds since the Unix epoch.

use vstd::prelude::*;

verus! {

/// The failed attempt that closes the account.
pub const MAX_FAILED_ATTEMPTS: u32 = 5;

/// The length of the lock window in seconds (15 minutes).
pub const LOCK_WINDOW_SECS: u64 = 900;

/// The last instant that an RFC 3339 timestamp can express
/// (9999-12-31T23:59:59Z). Clock readings beyond it are refused.
pub const MAX_TIMESTAMP: u64 = 253_402_300_799;

/// The lock state of one account.
#[derive(Clone, Copy, Debug, PartialEq, Eq, Structural)]
pub enum LockState {
    /// Open, with the number of failures since the last success.
    Unlocked { failed: u32 },
    /// Closed until the given instant.
    Locked { until: u64 },
}

/// Whether an attempt at `now` is refused outright.
pub open spec fn is_locked_at(state: LockState, now: u64) -> bool {
    match state {
        LockState::Unlocked { .. } => false,
        LockState::Locked { until } => now < until,
    }
}

/// The state an attempt at `now` is judged in: a lock whose window has
/// elapsed counts as open with one failure left.
pub open spec fn effective_at(state: LockState, now: u64) -> LockState {
    match state {
        LockState::Unlocked { failed } => LockState::Unlocked { failed },
        LockState::Locked { until } => if now < until {
            LockState::Locked { until }
        } else {
            LockState::Unlocked { failed: (MAX_FAILED_ATTEMPTS - 1) as u32 }
        },
    }
}

/// The state after a failed password check at `now`. While the lock holds
/// nothing changes.
pub open spec fn after_failure(state: LockState, now: u64) -> LockState {
    match effective_at(state, now) {
        LockState::Locked { until } => LockState::Locked { until },
        LockState::Unlocked { failed } => if failed + 1 >= MAX_FAILED_ATTEMPTS {
            LockState::Locked { until: (now + LOCK_WINDOW_SECS) as u64 }
        } else {
            LockState::Unlocked { failed: (failed + 1) as u32 }
        },
    }
}

/// The state after a successful password check at `now`. While the lock
/// holds nothing changes.
pub open spec fn after_success(state: LockState, now: u64) -> LockState {
    if is_locked_at(state, now) {
        state
    } else {
        LockState::Unlocked { failed: 0 }
    }
}

/// The state after `n` failed checks in a row, all at `now` or later; the
/// instants are given oldest first.
pub open spec fn after_failures(state: LockState, times: Seq<u64>) -> LockState
    decreases times.len(),
{
    if times.len() == 0 {
        state
    } else {
        after_failure(after_failures(state, times.drop_last()), times.last())
    }
}

impl LockState {
    /// The state of a new account.
    pub fn new() -> (r: LockState)
        ensures
            r == (LockState::Unlocked { failed: 0 }),
    {
        LockState::Unlocked { failed: 0 }
    }

    /// The state that a credential record stores as its failure counter and
    /// the end of its lock window.
    pub open spec fn spec_from_record(failed: u32, locked_until: Option<u64>) -> LockState {
        match locked_until {
            Some(until) => LockState::Locked { until },
            None => LockState::Unlocked { failed },
        }
    }

    /// The failure counter a credential record stores for this state.
    pub open spec fn spec_failed_count(self) -> u32 {
        match self {
            LockState::Unlocked { failed } => failed,
            LockState::Locked { .. } => MAX_FAILED_ATTEMPTS,
        }
    }

    /// The end of the lock window a credential record stores for this state.
    pub open spec fn spec_locked_until(self) -> Option<u64> {
        match self {
            LockState::Unlocked { .. } => None,
            LockState::Locked { until } => Some(until),
        }
    }

    /// Reads the state off a credential record.
    pub fn from_record(failed: u32, locked_until: Option<u64>) -> (r: LockState)
        ensures
            r == Self::spec_from_record(failed, locked_until),
    {
        match locked_until {
            Some(until) => LockState::Locked { until },
            None => LockState::Unlocked { failed },
        }
    }

    /// The failure counter to store.
    pub fn failed_count(self) -> (r: u32)
        ensures
            r == self.spec_failed_count(),
    {
        match self {
            LockState::Unlocked { failed } => failed,
            LockState::Locked { .. } => MAX_FAILED_ATTEMPTS,
        }
    }

    /// The end of the lock window to store.
    pub fn locked_until(self) -> (r: Option<u64>)
        ensures
            r == self.spec_locked_until(),
    {
        match self {
            LockState::Unlocked { .. } => None,
            LockState::Locked { until } => Some(until),
        }
    }

    /// Whether an attempt at `now` must be refused before the password is
    /// looked at. The password is no argument of this decision.
    pub fn is_locked(self, now: u64) -> (r: bool)
        ensures
            r == is_locked_at(self, now),
    {
        match self {
            LockState::Unlocked { .. } => false,
            LockState::Locked { until } => now < until,
        }
    }

    /// Records a failed password check at `now`.
    pub fn on_failure(self, now: u64) -> (r: LockState)
        requires
            now <= MAX_TIMESTAMP,
        ensures
            r == after_failure(self, now),
    {
        match self {
            LockState::Locked { until } => if now < until {
                LockState::Locked { until }
            } else {
                LockState::Locked { until: now + LOCK_WINDOW_SECS }
            },
            LockState::Unlocked { failed } => if failed >= MAX_FAILED_ATTEMPTS - 1 {
                LockState::Locked { until: now + LOCK_WINDOW_SECS }
            } else {
                LockState::Unlocked { failed: failed + 1 }
            },
        }
    }

    /// Records a successful password check at `now`.
    pub fn on_success(self, now: u64) -> (r: LockState)
        ensures
            r == after_success(self, now),
    {
        if self.is_locked(now) {
            self
        } else {
            LockState::Unlocked { failed: 0 }
        }
    }
}

/// Five failures in a row close a fresh account, and the lock ends exactly
/// one lock window after the fifth.
pub proof fn lemma_five_failures_lock(t1: u64, t2: u64, t3: u64, t4: u64, t5: u64)
    requires
        t5 <= MAX_TIMESTAMP,
    ensures
        after_failures(LockState::Unlocked { failed: 0 }, seq![t1, t2, t3, t4, t5]) == (
        LockState::Locked { until: (t5 + LOCK_WINDOW_SECS) as u64 }),
        after_failures(LockState::Unlocked { failed: 0 }, seq![t1, t2, t3, t4]) == (
        LockState::Unlocked { failed: 4 }),
{
    let s0 = LockState::Unlocked { failed: 0 };
    let q5 = seq![t1, t2, t3, t4, t5];
    let q4 = seq![t1, t2, t3, t4];
    let q3 = seq![t1, t2, t3];
    let q2 = seq![t1, t2];
    let q1 = seq![t1];
    let q0 = Seq::<u64>::empty();
    assert(q5.drop_last() =~= q4);
    assert(q4.drop_last() =~= q3);
    assert(q3.drop_last() =~= q2);
    assert(q2.drop_last() =~= q1);
    assert(q1.drop_last() =~= q0);
    assert(after_failures(s0, q0) == s0);
    assert(after_failures(s0, q1) == after_failure(after_failures(s0, q0), t1));
    assert(after_failures(s0, q2) == after_failure(after_failures(s0, q1), t2));
    assert(after_failures(s0, q3) == after_failure(after_failures(s0, q2), t3));
    assert(after_failures(s0, q4) == after_failure(after_failures(s0, q3), t4));
    assert(after_failures(s0, q5) == after_failure(after_failures(s0, q4), t5));
}

/// While the lock holds, an attempt is refused and neither a failure nor a
/// success changes the state: the outcome of the password check plays no
/// part.
pub proof fn lemma_locked_attempt_changes_nothing(state: LockState, now: u64)
    requires
        is_locked_at(state, now),
    ensures
        after_failure(state, now) == state,
        after_success(state, now) == state,
{
}

/// Once the lock window has elapsed the account is open again, and a
/// success clears the failure count.
pub proof fn lemma_elapsed_lock_opens(until: u64, now: u64)
    requires
        until <= now,
    ensures
        !is_locked_at(LockState::Locked { until }, now),
        after_success(LockState::Locked { until }, now) == (LockState::Unlocked { failed: 0 }),
        after_success(LockState::Locked { until }, now).spec_failed_count() == 0,
{
}

} // verus!
