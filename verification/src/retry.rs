//! Reconnect backoff: an attempt counter and the exponential, capped delay
//! computed from it.

use vstd::prelude::*;
use crate::BACKOFF_BASE_MS;
use crate::BACKOFF_MAX_MS;

verus! {

/// The delay, in milliseconds, before reconnect attempt number `attempt`:
/// the base delay doubled once per previous attempt, never above the ceiling.
pub open spec fn backoff_delay_spec(attempt: nat) -> u64
    decreases attempt,
{
    if attempt == 0 {
        BACKOFF_BASE_MS
    } else {
        let prev = backoff_delay_spec((attempt - 1) as nat);
        if prev * 2 >= BACKOFF_MAX_MS {
            BACKOFF_MAX_MS
        } else {
            (prev * 2) as u64
        }
    }
}

/// The delay sequence stays between the base and the ceiling.
pub proof fn lemma_backoff_bounded(attempt: nat)
    ensures
        BACKOFF_BASE_MS <= backoff_delay_spec(attempt) <= BACKOFF_MAX_MS,
    decreases attempt,
{
    if attempt > 0 {
        lemma_backoff_bounded((attempt - 1) as nat);
    }
}

/// The delay sequence never decreases from one failure to the next.
pub proof fn lemma_backoff_monotonic(attempt: nat)
    ensures
        backoff_delay_spec(attempt) <= backoff_delay_spec(attempt + 1),
{
    lemma_backoff_bounded(attempt);
}

/// After a success resets the counter, the next failure's delay is the base
/// delay again.
pub proof fn lemma_backoff_resets_to_base()
    ensures
        backoff_delay_spec(0) == BACKOFF_BASE_MS,
{
}

/// Consecutive transient failures without an intervening success; reset to
/// zero on any successfully received event.
#[derive(Debug, Clone, PartialEq, Eq)]
pub struct RetryState {
    pub attempt: u64,
}

impl RetryState {
    /// A fresh state: no failure seen yet.
    pub fn new() -> (r: RetryState)
        ensures
            r.attempt == 0,
    {
        RetryState { attempt: 0 }
    }

    /// Record one more consecutive transient failure.
    pub fn on_failure(&mut self)
        ensures
            final(self).attempt == if old(self).attempt < u64::MAX {
                old(self).attempt + 1
            } else {
                old(self).attempt as int
            },
    {
        if self.attempt < u64::MAX {
            self.attempt = self.attempt + 1;
        }
    }

    /// Reset to baseline after a successfully received event.
    pub fn on_success(&mut self)
        ensures
            final(self).attempt == 0,
    {
        self.attempt = 0;
    }

    /// The delay to sleep before the next reconnect attempt.
    pub fn next_delay_ms(&self) -> (d: u64)
        ensures
            d == backoff_delay_spec(self.attempt as nat),
    {
        let mut d: u64 = BACKOFF_BASE_MS;
        let mut i: u64 = 0;
        while i < self.attempt
            invariant
                i <= self.attempt,
                d == backoff_delay_spec(i as nat),
            decreases self.attempt - i,
        {
            proof {
                lemma_backoff_bounded(i as nat);
            }
            if d >= BACKOFF_MAX_MS / 2 {
                d = BACKOFF_MAX_MS;
            } else {
                d = d * 2;
            }
            i = i + 1;
        }
        d
    }
}

} // verus!
