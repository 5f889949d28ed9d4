//! Coefficient-update decimation.
//!
//! Filter coefficients that need expensive transcendental math (allpass
//! `tan`, shelving biquads) are recomputed only once every
//! [`COEFF_UPDATE_INTERVAL`] samples. The down-counter starts at 1 so that the
//! very first sample after construction or reset triggers an update.

use vstd::prelude::*;

verus! {

/// Number of samples between two coefficient recomputations.
pub const COEFF_UPDATE_INTERVAL: u32 = 32;

/// Down-counter that fires once every [`COEFF_UPDATE_INTERVAL`] ticks.
///
/// The counter always lies in `1..=COEFF_UPDATE_INTERVAL`; it holds the number
/// of ticks left until the next update, the current one included.
pub struct CoeffDecimator {
    counter: u32,
}

/// Counter value after one tick from counter `c`.
pub open spec fn next_counter(c: int) -> int {
    if c == 1 { COEFF_UPDATE_INTERVAL as int } else { c - 1 }
}

/// Counter value after `n` ticks from counter `c`.
pub open spec fn counter_after(c: int, n: nat) -> int
    decreases n,
{
    if n == 0 { c } else { next_counter(counter_after(c, (n - 1) as nat)) }
}

/// Number of updates fired during `n` ticks started from counter `c`.
pub open spec fn fires_during(c: int, n: nat) -> nat
    decreases n,
{
    if n == 0 {
        0
    } else {
        let prev = counter_after(c, (n - 1) as nat);
        fires_during(c, (n - 1) as nat) + if prev == 1 { 1nat } else { 0nat }
    }
}

impl CoeffDecimator {
    /// Ticks left until the next update, the coming tick included.
    pub closed spec fn remaining(&self) -> int {
        self.counter as int
    }

    /// The counter lies in `1..=COEFF_UPDATE_INTERVAL`.
    pub open spec fn wf(&self) -> bool {
        1 <= self.remaining() <= COEFF_UPDATE_INTERVAL
    }

    /// A decimator whose next tick fires.
    pub fn new() -> (r: Self)
        ensures
            r.wf(),
            r.remaining() == 1,
    {
        CoeffDecimator { counter: 1 }
    }

    /// Advance by one sample; returns `true` when coefficients must be recomputed.
    pub fn tick(&mut self) -> (fire: bool)
        requires
            old(self).wf(),
        ensures
            final(self).wf(),
            fire == (old(self).remaining() == 1),
            final(self).remaining() == next_counter(old(self).remaining()),
    {
        self.counter = self.counter - 1;
        if self.counter == 0 {
            self.counter = COEFF_UPDATE_INTERVAL;
            true
        } else {
            false
        }
    }

    /// Arrange for the next tick to fire (used by `reset`).
    pub fn reset(&mut self)
        ensures
            final(self).wf(),
            final(self).remaining() == 1,
    {
        self.counter = 1;
    }
}

/// From any valid counter the counter stays in `1..=COEFF_UPDATE_INTERVAL`.
pub proof fn lemma_counter_stays_valid(c: int, n: nat)
    requires
        1 <= c <= COEFF_UPDATE_INTERVAL,
    ensures
        1 <= counter_after(c, n) <= COEFF_UPDATE_INTERVAL,
    decreases n,
{
    if n > 0 {
        lemma_counter_stays_valid(c, (n - 1) as nat);
    }
}

proof fn lemma_after_reset_shape(n: nat)
    ensures
        counter_after(1, n) == if n % 32 == 0 { 1 } else { 33 - (n % 32) },
        fires_during(1, n) == (n + 31) / 32,
    decreases n,
{
    if n > 0 {
        lemma_after_reset_shape((n - 1) as nat);
    }
}

/// After a reset, `n` ticks fire exactly `ceil(n / COEFF_UPDATE_INTERVAL)` updates,
/// and a tick fires exactly when the number of ticks before it is a multiple of
/// the interval.
pub proof fn lemma_updates_after_reset(n: nat)
    ensures
        fires_during(1, n) as int == (n + COEFF_UPDATE_INTERVAL - 1) / (COEFF_UPDATE_INTERVAL as int),
        (counter_after(1, n) == 1) <==> (n as int % (COEFF_UPDATE_INTERVAL as int) == 0),
{
    lemma_after_reset_shape(n);
}

} // verus!
