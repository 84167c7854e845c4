//! Fixed-point decimal numbers with nine fractional digits.
//!
//! Every fraction the library works with (weights, rates, thresholds) is a
//! [`Fixed`]: a signed count of billionths. Contracts speak of these counts
//! as mathematical integers, so a product of two fractions is the integer
//! product divided by [`SCALE`], rounded towards negative infinity.

use vstd::prelude::*;

verus! {

/// A decimal number held as a signed count of billionths.
pub type Fixed = i64;

/// Number of raw units in one whole.
pub const SCALE: i64 = 1_000_000_000;

/// `x` limited to the closed range from `lo` to `hi`.
pub open spec fn clamp(x: int, lo: int, hi: int) -> int {
    if x < lo {
        lo
    } else if x > hi {
        hi
    } else {
        x
    }
}

/// `x` limited to what a [`Fixed`] can hold.
pub open spec fn saturated(x: int) -> int {
    clamp(x, i64::MIN as int, i64::MAX as int)
}

/// A product of two raw counts brought back to one factor of [`SCALE`],
/// rounded towards negative infinity.
pub open spec fn scaled(product: int) -> int {
    product / (SCALE as int)
}

/// The smallest integer that is not below `numerator / denominator`.
pub open spec fn div_ceil(numerator: int, denominator: int) -> int {
    -((-numerator) / denominator)
}

/// Narrows a wide count to a [`Fixed`], stopping at the ends of its range.
pub fn saturate(x: i128) -> (r: Fixed)
    ensures
        r == saturated(x as int),
{
    if x < i64::MIN as i128 {
        i64::MIN
    } else if x > i64::MAX as i128 {
        i64::MAX
    } else {
        x as i64
    }
}

/// Quotient rounded towards negative infinity.
pub fn div_floor(numerator: i128, denominator: i128) -> (q: i128)
    requires
        denominator > 0,
    ensures
        q == numerator / denominator,
{
    proof {
        lemma_quotient_bounds(numerator as int, denominator as int);
    }
    match numerator.checked_div_euclid(denominator) {
        Some(q) => q,
        None => 0,
    }
}

/// Multiplies a fixed-point number by a factor counted in billionths.
///
/// The exact product is rounded towards negative infinity; a result outside
/// the range of [`Fixed`] becomes the nearest end of that range.
pub fn mul_scaled(value: Fixed, factor: i128) -> (r: Fixed)
    ensures
        r == saturated(scaled(value * factor)),
{
    match (value as i128).checked_mul(factor) {
        Some(product) => saturate(div_floor(product, SCALE as i128)),
        None => {
            proof {
                lemma_product_sign(value as int, factor as int);
            }
            if (value > 0) == (factor > 0) {
                i64::MAX
            } else {
                i64::MIN
            }
        },
    }
}

/// A quotient by a positive number lies between the numerator and zero.
pub proof fn lemma_quotient_bounds(numerator: int, denominator: int)
    requires
        denominator > 0,
    ensures
        numerator >= 0 ==> 0 <= numerator / denominator <= numerator,
        numerator < 0 ==> numerator <= numerator / denominator < 0,
{
    let q = numerator / denominator;
    let r = numerator % denominator;
    assert(numerator == denominator * q + r && 0 <= r < denominator) by {
        vstd::arithmetic::div_mod::lemma_fundamental_div_mod(numerator, denominator);
        vstd::arithmetic::div_mod::lemma_mod_bound(numerator, denominator);
    }
    if numerator >= 0 {
        assert(0 <= q <= numerator) by (nonlinear_arith)
            requires
                numerator == denominator * q + r,
                0 <= r < denominator,
                numerator >= 0,
                denominator > 0,
        ;
    } else {
        assert(numerator <= q < 0) by (nonlinear_arith)
            requires
                numerator == denominator * q + r,
                0 <= r < denominator,
                numerator < 0,
                denominator > 0,
        ;
    }
}

/// The sign of a product follows the signs of its factors.
pub proof fn lemma_product_sign(a: int, b: int)
    ensures
        (a > 0 && b > 0) || (a < 0 && b < 0) ==> a * b > 0,
        (a > 0 && b < 0) || (a < 0 && b > 0) ==> a * b < 0,
        a == 0 || b == 0 ==> a * b == 0,
{
    assert((a > 0 && b > 0) || (a < 0 && b < 0) ==> a * b > 0) by (nonlinear_arith);
    assert((a > 0 && b < 0) || (a < 0 && b > 0) ==> a * b < 0) by (nonlinear_arith);
    assert(a == 0 || b == 0 ==> a * b == 0) by (nonlinear_arith);
}

} // verus!
