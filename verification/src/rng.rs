//! A seedable pseudo-random number generator.
//!
//! Every draw is a mathematical function of the seed, so a layout produced
//! from a given seed is reproducible bit for bit: the generator state is a
//! 64-bit counter and each draw mixes it through two xor-shift-multiply
//! rounds. The draw sequence, not its statistical quality, is what the
//! simulation's contracts depend on.

use vstd::prelude::*;

verus! {

/// Increment added to the counter state before each draw.
pub const STATE_INCREMENT: u64 = 0x9E37_79B9_7F4A_7C15;

/// The output mix: two xor-shift-multiply rounds and a final xor-shift.
pub open spec fn spec_mix(z0: u64) -> u64 {
    let z1 = (z0 ^ (z0 >> 30)).wrapping_mul(0xBF58_476D_1CE4_E5B9);
    let z2 = (z1 ^ (z1 >> 27)).wrapping_mul(0x94D0_49BB_1331_11EB);
    z2 ^ (z2 >> 31)
}

/// The state left behind after one draw from state `s`.
pub open spec fn spec_rng_advance(s: u64) -> u64 {
    s.wrapping_add(STATE_INCREMENT)
}

/// The value drawn when the state is `s`.
pub open spec fn spec_rng_value(s: u64) -> u64 {
    spec_mix(spec_rng_advance(s))
}

/// The state after `n` draws from state `s`.
pub open spec fn spec_advance_n(s: u64, n: nat) -> u64
    decreases n,
{
    if n == 0 {
        s
    } else {
        spec_advance_n(spec_rng_advance(s), (n - 1) as nat)
    }
}

/// Advancing `a` draws and then `b` draws is advancing `a + b` draws.
pub proof fn lemma_advance_n_add(s: u64, a: nat, b: nat)
    ensures
        spec_advance_n(spec_advance_n(s, a), b) == spec_advance_n(s, a + b),
    decreases a,
{
    if a == 0 {
    } else {
        lemma_advance_n_add(spec_rng_advance(s), (a - 1) as nat, b);
    }
}

/// Seedable generator state.
pub struct StarRng {
    pub state: u64,
}

impl StarRng {
    pub fn new(seed: u64) -> (rng: StarRng)
        ensures
            rng.state == seed,
    {
        StarRng { state: seed }
    }

    /// Draw a full 64-bit value and advance the state.
    pub fn next_u64(&mut self) -> (r: u64)
        ensures
            final(self).state == spec_rng_advance(old(self).state),
            r == spec_rng_value(old(self).state),
    {
        self.state = self.state.wrapping_add(STATE_INCREMENT);
        let z0: u64 = self.state;
        let z1: u64 = (z0 ^ (z0 >> 30)).wrapping_mul(0xBF58_476D_1CE4_E5B9);
        let z2: u64 = (z1 ^ (z1 >> 27)).wrapping_mul(0x94D0_49BB_1331_11EB);
        z2 ^ (z2 >> 31)
    }

    /// Draw a value below `n`, uniformly up to modulo bias.
    pub fn next_below(&mut self, n: u64) -> (r: u64)
        requires
            n > 0,
        ensures
            final(self).state == spec_rng_advance(old(self).state),
            r == spec_rng_value(old(self).state) % n,
            r < n,
    {
        self.next_u64() % n
    }

    /// Draw a value in the half-open range `lo..hi`.
    pub fn next_in_range(&mut self, lo: i64, hi: i64) -> (r: i64)
        requires
            lo < hi,
            hi - lo <= i64::MAX,
        ensures
            final(self).state == spec_rng_advance(old(self).state),
            r == lo + spec_rng_value(old(self).state) % ((hi - lo) as u64),
            lo <= r < hi,
    {
        let span: u64 = (hi - lo) as u64;
        let v: u64 = self.next_u64() % span;
        lo + (v as i64)
    }
}

} // verus!
