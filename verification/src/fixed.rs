//! Fixed-point arithmetic.
//!
//! A quantity is stored as a whole number of steps, `SCALE` steps to the
//! unit. Products are rounded toward zero, so that scaling a value by a
//! factor between zero and one never enlarges it and never flips its sign.

use vstd::prelude::*;

verus! {

/// Number of steps that make up one unit.
pub const SCALE: i64 = 1_000_000;

/// Largest magnitude, in steps, accepted for a coordinate or a rate: one
/// million units.
pub const LIMIT: i64 = 1_000_000_000_000;

/// Absolute value of an integer.
pub open spec fn magnitude(v: int) -> int {
    if v < 0 {
        -v
    } else {
        v
    }
}

/// Quotient of `n` by a positive `d`, rounded toward zero.
pub open spec fn trunc_div(n: int, d: int) -> int {
    if n >= 0 {
        n / d
    } else {
        -((-n) / d)
    }
}

/// Product of two fixed-point quantities, itself in steps, rounded toward
/// zero.
pub open spec fn scaled_product(a: int, b: int) -> int {
    trunc_div(a * b, SCALE as int)
}

/// `v` held within `[lo, hi]`.
pub open spec fn clamped(v: int, lo: int, hi: int) -> int {
    if v < lo {
        lo
    } else if v > hi {
        hi
    } else {
        v
    }
}

/// The magnitude of a product is bounded by the product of the bounds of
/// its factors.
pub proof fn lemma_product_bounded(a: int, b: int, bound_a: int, bound_b: int)
    by (nonlinear_arith)
    requires
        -bound_a <= a <= bound_a,
        -bound_b <= b <= bound_b,
    ensures
        -(bound_a * bound_b) <= a * b <= bound_a * bound_b,
{
}

/// Scaling by a factor of magnitude at most one never enlarges a value.
pub proof fn lemma_scaled_product_shrinks(a: int, b: int)
    requires
        -SCALE <= b <= SCALE,
    ensures
        magnitude(scaled_product(a, b)) <= magnitude(a),
{
    let p = a * b;
    let m = magnitude(a);
    assert(-(m * SCALE) <= p <= m * SCALE) by {
        lemma_product_bounded(a, b, m, SCALE as int);
    }
}

/// Scaling by a non-negative factor keeps the sign of a value, or gives
/// zero.
pub proof fn lemma_scaled_product_sign(a: int, b: int)
    requires
        0 <= b,
    ensures
        a >= 0 ==> scaled_product(a, b) >= 0,
        a <= 0 ==> scaled_product(a, b) <= 0,
{
    assert(a >= 0 ==> a * b >= 0) by (nonlinear_arith)
        requires
            0 <= b,
    ;
    assert(a <= 0 ==> a * b <= 0) by (nonlinear_arith)
        requires
            0 <= b,
    ;
}

/// Scaling a non-zero value by a factor strictly between zero and one
/// brings it strictly closer to zero.
pub proof fn lemma_scaled_product_decays(a: int, b: int)
    requires
        0 <= b < SCALE,
        a != 0,
    ensures
        magnitude(scaled_product(a, b)) < magnitude(a),
{
    let m = magnitude(a);
    assert(0 <= m * b < m * SCALE) by (nonlinear_arith)
        requires
            0 < m,
            0 <= b < SCALE,
    ;
    assert(a * b == m * b || a * b == -(m * b)) by (nonlinear_arith)
        requires
            m == a || m == -a,
    ;
}

/// A product with a zero factor is zero.
pub proof fn lemma_scaled_product_zero(a: int)
    ensures
        scaled_product(a, 0) == 0,
        scaled_product(0, a) == 0,
{
}

/// Scaling by exactly one unit leaves a value unchanged.
pub proof fn lemma_scaled_product_unit(a: int)
    ensures
        scaled_product(a, SCALE as int) == a,
        scaled_product(SCALE as int, a) == a,
{
}

/// Multiplies two fixed-point quantities, rounding toward zero.
pub fn scale_mul(a: i64, b: i64) -> (r: i64)
    requires
        i64::MIN <= a * b <= i64::MAX,
    ensures
        r == scaled_product(a as int, b as int),
{
    (a * b) / SCALE
}

} // verus!
