//! Fixed-point trigonometry in milli-radians.
//!
//! Angles are integers counting thousandths of a radian, so one turn is
//! `TWO_PI_MRAD` = 6283. Results are thousandths of a unit in `-1000..=1000`.
//! The positive half-wave is a quadratic rational approximation of the sine
//! (16·x·(π−x) over 5·π²−4·x·(π−x), in milli-radians); the exact integer
//! formula below is the library's definition of the spiral's shape, and the
//! contracts pin the executable code to it.

use vstd::prelude::*;
use vstd::arithmetic::div_mod::lemma_div_is_ordered;
use vstd::arithmetic::div_mod::lemma_div_multiples_vanish;

verus! {

/// One half turn, in milli-radians.
pub const PI_MRAD: u64 = 3142;

/// One full turn, in milli-radians.
pub const TWO_PI_MRAD: u64 = 6283;

/// A quarter turn, in milli-radians.
pub const HALF_PI_MRAD: u64 = 1571;

/// Sine on the positive half-wave `0 <= x < PI_MRAD`, in milli-units.
pub open spec fn spec_sin_half(x: int) -> int {
    let p = x * (3142 - x);
    (16000 * p) / (49_360_820 - 4 * p)
}

/// Sine of any angle, by reduction to the half-wave; milli-units.
pub open spec fn spec_sin(a: int) -> int {
    let r = a % 6283;
    if r < 3142 {
        spec_sin_half(r)
    } else {
        -spec_sin_half(r - 3142)
    }
}

/// Cosine as the sine shifted by a quarter turn; milli-units.
pub open spec fn spec_cos(a: int) -> int {
    spec_sin(a + 1571)
}

proof fn lemma_half_wave_product_bounds(x: int)
    requires
        0 <= x < 3142,
    ensures
        0 <= x * (3142 - x) <= 2_468_041,
{
    assert(0 <= x * (3142 - x) <= 2_468_041) by (nonlinear_arith)
        requires 0 <= x < 3142;
}

proof fn lemma_sin_half_bounds(x: int)
    requires
        0 <= x < 3142,
    ensures
        0 <= spec_sin_half(x) <= 1000,
{
    let p = x * (3142 - x);
    lemma_half_wave_product_bounds(x);
    let den = 49_360_820 - 4 * p;
    assert(den >= 39_488_656);
    lemma_div_is_ordered(0, 16000 * p, den);
    lemma_div_is_ordered(16000 * p, 1000 * den, den);
    lemma_div_multiples_vanish(1000, den);
}

fn sin_half_mrad(x: u64) -> (r: u64)
    requires
        x < 3142,
    ensures
        r == spec_sin_half(x as int),
        r <= 1000,
{
    proof {
        lemma_half_wave_product_bounds(x as int);
        lemma_sin_half_bounds(x as int);
    }
    let p: u64 = x * (3142 - x);
    (16000 * p) / (49_360_820 - 4 * p)
}

/// Sine of a non-negative angle in milli-radians, in `-1000..=1000`.
pub fn sin_mrad(a: u64) -> (r: i64)
    ensures
        r == spec_sin(a as int),
        -1000 <= r <= 1000,
{
    let red: u64 = a % 6283;
    if red < 3142 {
        sin_half_mrad(red) as i64
    } else {
        proof {
            lemma_sin_half_bounds(red - 3142);
        }
        -(sin_half_mrad(red - 3142) as i64)
    }
}

/// Cosine of a non-negative angle in milli-radians, in `-1000..=1000`.
pub fn cos_mrad(a: u64) -> (r: i64)
    requires
        a + 1571 <= u64::MAX,
    ensures
        r == spec_cos(a as int),
        -1000 <= r <= 1000,
{
    sin_mrad(a + 1571)
}

} // verus!
