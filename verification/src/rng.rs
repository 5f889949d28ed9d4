//! xorshift64 pseudo-random generator used by the granular effects.
//!
//! The generator state is a `u64` updated by `x ^= x << 13; x ^= x >> 7;
//! x ^= x << 17`. A draw keeps the top 24 bits of the new state; divided by
//! 2^24 it gives a value in `[0, 1)` (that division happens where samples are
//! `f32`).

use vstd::prelude::*;

verus! {

/// Seed of the texture effect's generator.
pub const TEXTURE_SEED: u64 = 0xDEAD_BEEF_CAFE_1337;

/// Seed of the time-stretch effect's generator.
pub const TIME_STRETCH_SEED: u64 = 0x1234_5678_9ABC_DEF0;

/// One xorshift64 step.
pub open spec fn xorshift_step(x: u64) -> u64 {
    let a = x ^ (x << 13u64);
    let b = a ^ (a >> 7u64);
    b ^ (b << 17u64)
}

/// The 24-bit draw taken from a state: its top 24 bits.
pub open spec fn draw_bits(x: u64) -> u32 {
    (x >> 40u64) as u32
}

/// State after `n` steps from `x`.
pub open spec fn state_after(x: u64, n: nat) -> u64
    decreases n,
{
    if n == 0 { x } else { xorshift_step(state_after(x, (n - 1) as nat)) }
}

/// xorshift64 generator.
pub struct Xorshift64 {
    state: u64,
}

impl Xorshift64 {
    /// Current state.
    pub closed spec fn state(&self) -> u64 {
        self.state
    }

    /// A generator seeded with `seed`.
    pub fn new(seed: u64) -> (r: Self)
        ensures
            r.state() == seed,
    {
        Xorshift64 { state: seed }
    }

    /// Restore the generator to `seed` (used by `reset`).
    pub fn reseed(&mut self, seed: u64)
        ensures
            final(self).state() == seed,
    {
        self.state = seed;
    }

    /// Advance the state by one xorshift64 step and return the new state.
    pub fn next_u64(&mut self) -> (r: u64)
        ensures
            r == xorshift_step(old(self).state()),
            final(self).state() == r,
    {
        let mut x = self.state;
        x = x ^ (x << 13u64);
        x = x ^ (x >> 7u64);
        x = x ^ (x << 17u64);
        self.state = x;
        x
    }

    /// Advance the state and return its top 24 bits, a value in `0..2^24`.
    pub fn next_bits24(&mut self) -> (r: u32)
        ensures
            final(self).state() == xorshift_step(old(self).state()),
            r == draw_bits(final(self).state()),
            r < 0x100_0000,
    {
        let x = self.next_u64();
        let r = (x >> 40u64) as u32;
        assert((x >> 40u64) < 0x100_0000) by (bit_vector);
        r
    }
}

/// The top 24 bits of any state are below 2^24.
pub proof fn lemma_draw_in_range(x: u64)
    ensures
        draw_bits(x) < 0x100_0000,
{
    assert((x >> 40u64) < 0x100_0000) by (bit_vector);
}

/// A step maps a non-zero state to a non-zero state: the generator never
/// falls into the all-zero state, where it would stay forever.
pub proof fn lemma_step_nonzero(x: u64)
    requires
        x != 0,
    ensures
        xorshift_step(x) != 0,
{
    let a = x ^ (x << 13u64);
    let b = a ^ (a >> 7u64);
    let c = b ^ (b << 17u64);
    assert(x != 0 ==> x ^ (x << 13u64) != 0) by (bit_vector);
    assert(a != 0 ==> a ^ (a >> 7u64) != 0) by (bit_vector);
    assert(b != 0 ==> b ^ (b << 17u64) != 0) by (bit_vector);
}

/// Zero is the one state that a step maps to zero.
pub proof fn lemma_step_zero_fixed()
    ensures
        xorshift_step(0) == 0,
{
    assert(0u64 ^ (0u64 << 13u64) == 0) by (bit_vector);
    assert(0u64 ^ (0u64 >> 7u64) == 0) by (bit_vector);
    assert(0u64 ^ (0u64 << 17u64) == 0) by (bit_vector);
}

/// From a non-zero seed every later state is non-zero.
pub proof fn lemma_states_nonzero(x: u64, n: nat)
    requires
        x != 0,
    ensures
        state_after(x, n) != 0,
    decreases n,
{
    if n > 0 {
        lemma_states_nonzero(x, (n - 1) as nat);
        lemma_step_nonzero(state_after(x, (n - 1) as nat));
    }
}

} // verus!
