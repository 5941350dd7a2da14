//! The reconnect schedule: delays that grow by half each attempt up to a
//! ceiling, so a broker outage is retried ever more gently but never less
//! often than the ceiling allows.

use vstd::prelude::*;

verus! {

/// The delay before the first retry, in milliseconds.
pub const INITIAL_DELAY_MS: u64 = 500;

/// The longest delay between retries, in milliseconds.
pub const MAX_DELAY_MS: u64 = 60_000;

/// The delay that follows `d`: half again as long, capped at the ceiling.
pub open spec fn advance_spec(d: u64) -> u64 {
    if d + d / 2 > MAX_DELAY_MS {
        MAX_DELAY_MS
    } else {
        (d + d / 2) as u64
    }
}

/// The delay of attempt `n`, counting from zero.
pub open spec fn delay_after(n: nat) -> u64
    decreases n,
{
    if n == 0 {
        INITIAL_DELAY_MS
    } else {
        advance_spec(delay_after((n - 1) as nat))
    }
}

/// Within the ceiling, the schedule never shrinks.
pub proof fn lemma_advance_monotone(d: u64)
    requires
        d <= MAX_DELAY_MS,
    ensures
        advance_spec(d) >= d,
        advance_spec(d) <= MAX_DELAY_MS,
{
}

/// Every delay stays within the ceiling.
pub proof fn lemma_delay_bounded(n: nat)
    ensures
        delay_after(n) <= MAX_DELAY_MS,
    decreases n,
{
    if n > 0 {
        lemma_delay_bounded((n - 1) as nat);
        lemma_advance_monotone(delay_after((n - 1) as nat));
    }
}

/// Across any run of consecutive failed attempts, the delays are
/// non-decreasing until they sit at the ceiling.
pub proof fn lemma_backoff_nondecreasing(n: nat)
    ensures
        delay_after(n) <= delay_after(n + 1),
        delay_after(n + 1) <= MAX_DELAY_MS,
{
    lemma_delay_bounded(n);
    lemma_advance_monotone(delay_after(n));
}

/// The reconnect schedule's state: the delay the next failure earns.
pub struct Backoff {
    pub current_ms: u64,
}

impl Backoff {
    /// The schedule is somewhere on the delay ladder.
    pub open spec fn wf(&self) -> bool {
        self.current_ms <= MAX_DELAY_MS
    }

    /// A fresh schedule at the initial delay.
    pub fn new() -> (r: Self)
        ensures
            r.wf(),
            r.current_ms == INITIAL_DELAY_MS,
    {
        Backoff { current_ms: INITIAL_DELAY_MS }
    }

    /// The delay to wait before the retry at hand; the schedule then grows
    /// for the next one.
    pub fn next_delay(&mut self) -> (r: u64)
        requires
            old(self).wf(),
        ensures
            final(self).wf(),
            r == old(self).current_ms,
            final(self).current_ms == advance_spec(old(self).current_ms),
            final(self).current_ms >= old(self).current_ms,
    {
        let d = self.current_ms;
        let grown = d + d / 2;
        self.current_ms = if grown > MAX_DELAY_MS {
            MAX_DELAY_MS
        } else {
            grown
        };
        proof {
            lemma_advance_monotone(d);
        }
        d
    }
}

} // verus!
