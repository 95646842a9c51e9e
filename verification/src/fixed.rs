//! Saturating fixed-point arithmetic on `u64`.
//!
//! A value `v: u64` stands for the nonnegative rational `v / SCALE`.
//! All game quantities (stat values, skill ratios, multipliers, damage)
//! are carried in this representation. Addition and multiplication
//! saturate at `u64::MAX`; multiplication truncates toward zero.

use vstd::prelude::*;

verus! {

/// One whole unit: the fixed-point representation of 1.0.
pub const SCALE: u64 = 10000;

/// Clamp a mathematical integer into the `u64` range (values are never
/// negative in this library).
pub open spec fn sat64(x: int) -> u64 {
    if x > u64::MAX { u64::MAX } else { x as u64 }
}

/// Fixed-point addition: `a + b`, saturating.
pub open spec fn fx_add(a: u64, b: u64) -> u64 {
    sat64(a + b)
}

/// Fixed-point multiplication: `a * b / SCALE`, truncating, saturating.
pub open spec fn fx_mul(a: u64, b: u64) -> u64 {
    sat64((a * b) / (SCALE as int))
}

/// Saturating addition of two fixed-point values.
pub fn add_fx(a: u64, b: u64) -> (r: u64)
    ensures
        r == fx_add(a, b),
{
    if a > u64::MAX - b {
        u64::MAX
    } else {
        a + b
    }
}

/// Saturating fixed-point multiplication.
pub fn mul_fx(a: u64, b: u64) -> (r: u64)
    ensures
        r == fx_mul(a, b),
{
    proof {
        assert(a * b <= u64::MAX * u64::MAX) by (nonlinear_arith)
            requires
                a <= u64::MAX,
                b <= u64::MAX,
        ;
    }
    let p: u128 = (a as u128) * (b as u128);
    let q: u128 = p / (SCALE as u128);
    if q > u64::MAX as u128 {
        u64::MAX
    } else {
        q as u64
    }
}

/// Addition saturates monotonically.
pub proof fn lemma_fx_add_mono(a1: u64, b1: u64, a2: u64, b2: u64)
    requires
        a1 <= a2,
        b1 <= b2,
    ensures
        fx_add(a1, b1) <= fx_add(a2, b2),
{
}

/// Multiplication saturates monotonically.
pub proof fn lemma_fx_mul_mono(a1: u64, b1: u64, a2: u64, b2: u64)
    requires
        a1 <= a2,
        b1 <= b2,
    ensures
        fx_mul(a1, b1) <= fx_mul(a2, b2),
{
    assert(a1 * b1 <= a2 * b2) by (nonlinear_arith)
        requires
            a1 <= a2,
            b1 <= b2,
    ;
    vstd::arithmetic::div_mod::lemma_div_is_ordered(a1 * b1, a2 * b2, SCALE as int);
}

/// Saturating addition is associative.
pub proof fn lemma_fx_add_assoc(a: u64, b: u64, c: u64)
    ensures
        fx_add(fx_add(a, b), c) == fx_add(a, fx_add(b, c)),
{
}

/// Multiplying by one whole unit is the identity.
pub proof fn lemma_fx_mul_scale(a: u64)
    ensures
        fx_mul(a, SCALE) == a,
        fx_mul(SCALE, a) == a,
{
    vstd::arithmetic::div_mod::lemma_div_multiples_vanish(a as int, SCALE as int);
    assert(a * SCALE == SCALE * a) by (nonlinear_arith);
}

} // verus!
