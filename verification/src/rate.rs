//! Rate metrics: a counter delta over a wall-clock window, rounded to the
//! nearest unit. A counter that moved backwards counts as a zero delta
//! rather than failing, so a sampler never dies on a counter reset.

use vstd::prelude::*;

verus! {

/// Division rounded to the nearest integer, halves away from zero.
pub open spec fn round_div(a: int, b: int) -> int
    recommends
        b > 0,
{
    (a + b / 2) / b
}

/// `a - b`, or zero where the counter moved backwards.
pub open spec fn delta_or_zero(a: u64, b: u64) -> u64 {
    if a >= b {
        (a - b) as u64
    } else {
        0
    }
}

/// The exact per-second rate of `delta` over `elapsed_ms`, in thousandths of
/// a unit, rounded.
pub open spec fn rate_milli_spec(delta: u64, elapsed_ms: u64) -> int {
    round_div(delta * 1_000_000, elapsed_ms as int)
}

/// The exact per-second rate of `delta` over `elapsed_ms`, in whole units,
/// rounded.
pub open spec fn rate_units_spec(delta: u64, elapsed_ms: u64) -> int {
    round_div(delta * 1000, elapsed_ms as int)
}

/// Caps an exact rate at what a `u64` can carry.
pub open spec fn cap_u64(r: int) -> u64 {
    if r <= u64::MAX {
        r as u64
    } else {
        u64::MAX
    }
}

/// The per-second rate of `delta` over `elapsed_ms`, in whole units, rounded
/// to nearest and capped at `u64::MAX`.
pub fn rate_per_sec(delta: u64, elapsed_ms: u64) -> (r: u64)
    requires
        elapsed_ms > 0,
    ensures
        r == cap_u64(rate_units_spec(delta, elapsed_ms)),
{
    let num: u128 = (delta as u128) * 1000 + (elapsed_ms as u128) / 2;
    let q: u128 = num / (elapsed_ms as u128);
    if q > u64::MAX as u128 {
        u64::MAX
    } else {
        q as u64
    }
}

/// The per-second rate of `delta` over `elapsed_ms`, in thousandths of a
/// unit, rounded to nearest and capped at `u64::MAX`.
pub fn rate_per_sec_milli(delta: u64, elapsed_ms: u64) -> (r: u64)
    requires
        elapsed_ms > 0,
    ensures
        r == cap_u64(rate_milli_spec(delta, elapsed_ms)),
{
    let num: u128 = (delta as u128) * 1_000_000 + (elapsed_ms as u128) / 2;
    let q: u128 = num / (elapsed_ms as u128);
    if q > u64::MAX as u128 {
        u64::MAX
    } else {
        q as u64
    }
}

/// The last counter reading a sampler holds between windows.
pub struct RateSampler {
    pub last_counter: u64,
    pub last_time_ms: u64,
}

impl RateSampler {
    /// A sampler primed with its first counter reading.
    pub fn new(counter: u64, time_ms: u64) -> (r: Self)
        ensures
            r.last_counter == counter,
            r.last_time_ms == time_ms,
    {
        RateSampler { last_counter: counter, last_time_ms: time_ms }
    }

    /// Takes the next reading: when time has advanced, yields the rounded
    /// per-second rate in thousandths and supersedes the held reading; when
    /// it has not, elapsed time cannot be computed and nothing changes.
    pub fn step(&mut self, counter: u64, time_ms: u64) -> (r: Option<u64>)
        ensures
            time_ms > old(self).last_time_ms ==> r == Some(
                cap_u64(
                    rate_milli_spec(
                        delta_or_zero(counter, old(self).last_counter),
                        (time_ms - old(self).last_time_ms) as u64,
                    ),
                ),
            ) && final(self).last_counter == counter && final(self).last_time_ms == time_ms,
            time_ms <= old(self).last_time_ms ==> r is None && *final(self) == *old(self),
    {
        if time_ms <= self.last_time_ms {
            return None;
        }
        let elapsed: u64 = time_ms - self.last_time_ms;
        let delta: u64 = if counter >= self.last_counter {
            counter - self.last_counter
        } else {
            0
        };
        let rate = rate_per_sec_milli(delta, elapsed);
        self.last_counter = counter;
        self.last_time_ms = time_ms;
        Some(rate)
    }
}

/// Scheduling-tick percentages in tenths of a percent: the busy delta over
/// the window, against the tick rate, spread over `divisor` processors.
pub fn busy_tenths(delta: u64, clock_tick: u64, elapsed_ms: u64, divisor: u64) -> (r: u64)
    requires
        clock_tick > 0,
        elapsed_ms > 0,
        divisor > 0,
    ensures
        r == cap_u64(
            round_div(delta * 1_000_000, clock_tick * elapsed_ms * divisor),
        ),
{
    proof {
        assert((clock_tick as int) * (elapsed_ms as int) <= u128::MAX) by (nonlinear_arith)
            requires
                clock_tick <= u64::MAX,
                elapsed_ms <= u64::MAX,
        ;
    }
    let ce: u128 = (clock_tick as u128) * (elapsed_ms as u128);
    let den128: Option<u128> = ce.checked_mul(divisor as u128);
    match den128 {
        None => {
            proof {
                let num = delta * 1_000_000;
                let den = clock_tick * elapsed_ms * divisor;
                assert(num < den / 2) by (nonlinear_arith)
                    requires
                        den > u128::MAX,
                        num <= u64::MAX * 1_000_000,
                ;
                assert(num + den / 2 < den);
                assert(round_div(num, den) == 0) by (nonlinear_arith)
                    requires
                        num >= 0,
                        den > 0,
                        num + den / 2 < den,
                ;
            }
            0
        },
        Some(den) => {
            proof {
                assert(den == clock_tick * elapsed_ms * divisor);
                assert(den > 0) by (nonlinear_arith)
                    requires
                        den == clock_tick * elapsed_ms * divisor,
                        clock_tick > 0,
                        elapsed_ms > 0,
                        divisor > 0,
                ;
                assert((delta as int) * 1_000_000 + (den as int) / 2 <= u128::MAX) by (
                nonlinear_arith)
                    requires
                        delta <= u64::MAX,
                        den <= u128::MAX,
                ;
            }
            let num: u128 = (delta as u128) * 1_000_000 + den / 2;
            let q: u128 = num / den;
            if q > u64::MAX as u128 {
                u64::MAX
            } else {
                q as u64
            }
        },
    }
}

} // verus!
