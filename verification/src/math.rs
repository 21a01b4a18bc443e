//! Integer square root, used to normalise a body's index to the spiral's
//! radial progress without leaving fixed-point arithmetic.

use vstd::prelude::*;

verus! {

/// The integer square root of `x`: the largest `r` with `r * r <= x`,
/// defined by counting up from zero.
pub open spec fn spec_isqrt(x: nat) -> nat
    decreases x,
{
    if x == 0 {
        0
    } else {
        let r = spec_isqrt((x - 1) as nat);
        if (r + 1) * (r + 1) <= x {
            r + 1
        } else {
            r
        }
    }
}

pub proof fn lemma_isqrt_bounds(x: nat)
    ensures
        spec_isqrt(x) * spec_isqrt(x) <= x,
        x < (spec_isqrt(x) + 1) * (spec_isqrt(x) + 1),
    decreases x,
{
    let s = spec_isqrt(x);
    if x == 0 {
        assert(s == 0);
        assert(x < (s + 1) * (s + 1)) by (nonlinear_arith)
            requires x == 0 && s == 0;
    } else {
        let r = spec_isqrt((x - 1) as nat);
        lemma_isqrt_bounds((x - 1) as nat);
        if (r + 1) * (r + 1) <= x {
            assert(s == r + 1);
            assert(x == (r + 1) * (r + 1));
            assert(x < (s + 1) * (s + 1)) by (nonlinear_arith)
                requires s == r + 1 && x == (r + 1) * (r + 1);
        } else {
            assert(s == r);
        }
    }
}

/// The two-sided bound `r * r <= x < (r + 1) * (r + 1)` picks out exactly
/// one natural number, namely `spec_isqrt(x)`.
pub proof fn lemma_isqrt_unique(x: nat, r: nat)
    requires
        r * r <= x,
        x < (r + 1) * (r + 1),
    ensures
        r == spec_isqrt(x),
{
    let s = spec_isqrt(x);
    lemma_isqrt_bounds(x);
    if r < s {
        assert((r + 1) * (r + 1) <= s * s) by (nonlinear_arith)
            requires r + 1 <= s;
    }
    if s < r {
        assert((s + 1) * (s + 1) <= r * r) by (nonlinear_arith)
            requires s + 1 <= r;
    }
}

/// Integer square root by bisection.
pub fn isqrt(x: u64) -> (r: u64)
    ensures
        r == spec_isqrt(x as nat),
        r * r <= x,
        x < (r + 1) * (r + 1),
{
    let mut lo: u64 = 0;
    let mut hi: u64 = 0x1_0000_0000;
    while lo + 1 < hi
        invariant
            lo < hi,
            hi <= 0x1_0000_0000,
            lo * lo <= x,
            x < hi * hi,
        decreases hi - lo,
    {
        let mid: u64 = lo + (hi - lo) / 2;
        assert((mid as int) * (mid as int) <= 0x1_0000_0000 * 0x1_0000_0000) by (nonlinear_arith)
            requires mid <= 0x1_0000_0000;
        let sq: u128 = (mid as u128) * (mid as u128);
        if sq <= x as u128 {
            lo = mid;
        } else {
            hi = mid;
        }
    }
    proof {
        lemma_isqrt_unique(x as nat, lo as nat);
    }
    lo
}

} // verus!
