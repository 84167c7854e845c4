//! Exponentials and integer powers of decimal numbers.
//!
//! The two functions that cannot be computed exactly, `e^x` and `b^n` for a
//! large `n`, are taken from `rust_decimal`. A number goes there and comes
//! back as a *reading*: a mantissa and a count of decimal places. What the
//! library does with a reading (rounding it to billionths, deciding what an
//! overflow stands for) is verified here for every reading.

use vstd::prelude::*;
use crate::fixed::{div_floor, lemma_quotient_bounds, SCALE};

verus! {

/// The most decimal places a reading can have.
pub const MAX_DECIMAL_PLACES: u32 = 28;

/// One more than the largest mantissa a reading can have: `2^96`.
pub const MANTISSA_LIMIT: i128 = 0x1_0000_0000_0000_0000_0000_0000;

/// Stands for a factor too large to be held.
pub const FACTOR_MAX: i128 = i128::MAX;

/// Stands for a factor too far below zero to be held.
pub const FACTOR_MIN: i128 = i128::MIN;

/// What `rust_decimal` computes for `e^x`, where `x` is `mantissa / 10^scale`:
/// the mantissa and scale of the result, or `None` where it gives up.
pub uninterp spec fn decimal_exp(mantissa: i128, scale: u32) -> Option<(i128, u32)>;

/// What `rust_decimal` computes for `b^exponent`, where `b` is
/// `mantissa / 10^scale`: the mantissa and scale of the result, or `None`
/// where it gives up.
pub uninterp spec fn decimal_powu(mantissa: i128, scale: u32, exponent: u64) -> Option<(i128, u32)>;

/// Ten to the power `e`.
pub open spec fn pow10(e: nat) -> int
    decreases e,
{
    if e == 0 {
        1
    } else {
        10 * pow10((e - 1) as nat)
    }
}

/// Whether `mantissa / 10^scale` is a number that `rust_decimal` can hold.
pub open spec fn decimal_representable(mantissa: int, scale: int) -> bool {
    &&& -MANTISSA_LIMIT < mantissa < MANTISSA_LIMIT
    &&& 0 <= scale <= MAX_DECIMAL_PLACES
}

/// The number `mantissa / 10^scale` in billionths, rounded towards negative
/// infinity.
pub open spec fn reading_nanos(mantissa: int, scale: nat) -> int {
    (mantissa * SCALE) / pow10(scale)
}

/// What an exponential stands for where it cannot be held: nothing for a
/// negative exponent, more than any number for a positive one.
pub open spec fn exp_limit(mantissa: int) -> int {
    if mantissa < 0 {
        0
    } else {
        FACTOR_MAX as int
    }
}

/// The factor, in billionths, that a reading of `e^x` stands for, where `x`
/// has the given mantissa. A missing reading counts as its limit, a
/// negative one as zero.
pub open spec fn exp_reading_nanos(mantissa: int, reading: Option<(i128, u32)>) -> int {
    match reading {
        Some((m, s)) => if m < 0 {
            0
        } else {
            reading_nanos(m as int, s as nat)
        },
        None => exp_limit(mantissa),
    }
}

/// `e^x` in billionths, where `x` is `mantissa / 10^scale`.
///
/// `e^0` is exactly one. An exponent whose mantissa `rust_decimal` cannot
/// hold is far beyond the range in which `e^x` can be told from its limit.
pub open spec fn exp_nanos(mantissa: int, scale: int) -> int {
    if mantissa == 0 {
        SCALE as int
    } else if !decimal_representable(mantissa, scale) {
        exp_limit(mantissa)
    } else {
        exp_reading_nanos(mantissa, decimal_exp(mantissa as i128, scale as u32))
    }
}

/// What a power stands for where it cannot be held: nothing for a base
/// between minus one and one, else more than any number, below zero for a
/// negative base with an odd exponent.
pub open spec fn pow_limit(base: int, exponent: int) -> int {
    if -SCALE <= base <= SCALE {
        0
    } else if base < 0 && exponent % 2 == 1 {
        FACTOR_MIN as int
    } else {
        FACTOR_MAX as int
    }
}

/// The factor, in billionths, that a reading of `b^n` stands for, where `b`
/// is `base` billionths.
pub open spec fn pow_reading_nanos(base: int, exponent: int, reading: Option<(i128, u32)>) -> int {
    match reading {
        Some((m, s)) => reading_nanos(m as int, s as nat),
        None => pow_limit(base, exponent),
    }
}

/// `b^exponent` in billionths, where `b` is `base` billionths.
pub open spec fn pow_nanos(base: int, exponent: int) -> int {
    pow_reading_nanos(base, exponent, decimal_powu(base as i128, 9, exponent as u64))
}

/// Ten to the power `e` as a machine integer.
pub fn power_of_ten(e: u32) -> (r: i128)
    requires
        e <= MAX_DECIMAL_PLACES,
    ensures
        r == pow10(e as nat),
        1 <= r <= 10_000_000_000_000_000_000_000_000_000,
{
    let mut r: i128 = 1;
    let mut i: u32 = 0;
    while i < e
        invariant
            i <= e <= MAX_DECIMAL_PLACES,
            r == pow10(i as nat),
        decreases e - i,
    {
        proof {
            lemma_pow10_bounds(i as nat);
            lemma_pow10_bounds((i + 1) as nat);
        }
        r = r * 10;
        i = i + 1;
    }
    proof {
        lemma_pow10_bounds(e as nat);
    }
    r
}

/// Rounds a reading down to billionths.
pub fn reading_to_nanos(mantissa: i128, scale: u32) -> (r: i128)
    requires
        decimal_representable(mantissa as int, scale as int),
    ensures
        r == reading_nanos(mantissa as int, scale as nat),
{
    let unit = power_of_ten(scale);
    div_floor(mantissa * (SCALE as i128), unit)
}

/// The factor that a reading of `e^x` stands for, where `x` has the given
/// mantissa.
pub fn exp_from_reading(mantissa: i128, reading: Option<(i128, u32)>) -> (r: i128)
    requires
        reading matches Some((m, s)) ==> decimal_representable(m as int, s as int),
    ensures
        r == exp_reading_nanos(mantissa as int, reading),
        r >= 0,
{
    match reading {
        Some((m, s)) => {
            if m < 0 {
                0
            } else {
                proof {
                    lemma_pow10_bounds(s as nat);
                    lemma_quotient_bounds(m * SCALE, pow10(s as nat));
                }
                reading_to_nanos(m, s)
            }
        },
        None => {
            if mantissa < 0 {
                0
            } else {
                FACTOR_MAX
            }
        },
    }
}

/// `e^x` in billionths, where `x` is `mantissa / 10^scale`.
pub fn exp_fixed(mantissa: i128, scale: u32) -> (r: i128)
    requires
        scale <= MAX_DECIMAL_PLACES,
    ensures
        r == exp_nanos(mantissa as int, scale as int),
        r >= 0,
{
    if mantissa == 0 {
        SCALE as i128
    } else if mantissa <= -MANTISSA_LIMIT || mantissa >= MANTISSA_LIMIT {
        if mantissa < 0 {
            0
        } else {
            FACTOR_MAX
        }
    } else {
        exp_from_reading(mantissa, decimal_checked_exp(mantissa, scale))
    }
}

/// The factor that a reading of `b^n` stands for, where `b` is `base`
/// billionths.
pub fn pow_from_reading(base: i128, exponent: u64, reading: Option<(i128, u32)>) -> (r: i128)
    requires
        reading matches Some((m, s)) ==> decimal_representable(m as int, s as int),
    ensures
        r == pow_reading_nanos(base as int, exponent as int, reading),
{
    match reading {
        Some((m, s)) => reading_to_nanos(m, s),
        None => {
            if -(SCALE as i128) <= base && base <= SCALE as i128 {
                0
            } else if base < 0 && exponent % 2 == 1 {
                FACTOR_MIN
            } else {
                FACTOR_MAX
            }
        },
    }
}

/// `b^exponent` in billionths, where `b` is `base` billionths.
pub fn pow_fixed(base: i128, exponent: u64) -> (r: i128)
    requires
        -MANTISSA_LIMIT < base < MANTISSA_LIMIT,
    ensures
        r == pow_nanos(base as int, exponent as int),
{
    pow_from_reading(base, exponent, decimal_checked_powu(base, 9, exponent))
}

/// Powers of ten up to the largest scale stay positive and below `10^28`.
pub proof fn lemma_pow10_bounds(e: nat)
    requires
        e <= MAX_DECIMAL_PLACES,
    ensures
        1 <= pow10(e) <= 10_000_000_000_000_000_000_000_000_000,
        e < MAX_DECIMAL_PLACES ==> pow10(e) <= 1_000_000_000_000_000_000_000_000_000,
    decreases MAX_DECIMAL_PLACES - e,
{
    if e == MAX_DECIMAL_PLACES {
        assert(pow10(28) == 10_000_000_000_000_000_000_000_000_000) by {
            reveal_with_fuel(pow10, 29);
        }
    } else {
        lemma_pow10_bounds(e + 1);
        assert(pow10(e + 1) == 10 * pow10(e));
        lemma_pow10_positive(e);
    }
}

/// Every power of ten is positive.
pub proof fn lemma_pow10_positive(e: nat)
    ensures
        pow10(e) >= 1,
    decreases e,
{
    if e > 0 {
        lemma_pow10_positive((e - 1) as nat);
    }
}

/// Calls `rust_decimal::MathematicalOps::checked_exp` on the number built by
/// `Decimal::from_i128_with_scale`, and takes the result apart with
/// `Decimal::mantissa` and `Decimal::scale`.
///
/// The contract names the result and claims of it only what holds of every
/// `Decimal`: a mantissa below `2^96` in size and at most 28 decimal places.
#[verifier::external_body]
fn decimal_checked_exp(mantissa: i128, scale: u32) -> (r: Option<(i128, u32)>)
    requires
        decimal_representable(mantissa as int, scale as int),
    ensures
        r == decimal_exp(mantissa, scale),
        r matches Some((m, s)) ==> decimal_representable(m as int, s as int),
{
    let x = rust_decimal::Decimal::from_i128_with_scale(mantissa, scale);
    rust_decimal::MathematicalOps::checked_exp(&x).map(|y| (y.mantissa(), y.scale()))
}

/// Calls `rust_decimal::MathematicalOps::checked_powu` on the number built by
/// `Decimal::from_i128_with_scale`, and takes the result apart with
/// `Decimal::mantissa` and `Decimal::scale`.
///
/// The contract names the result and claims of it only what holds of every
/// `Decimal`: a mantissa below `2^96` in size and at most 28 decimal places.
#[verifier::external_body]
fn decimal_checked_powu(mantissa: i128, scale: u32, exponent: u64) -> (r: Option<(i128, u32)>)
    requires
        decimal_representable(mantissa as int, scale as int),
    ensures
        r == decimal_powu(mantissa, scale, exponent),
        r matches Some((m, s)) ==> decimal_representable(m as int, s as int),
{
    let b = rust_decimal::Decimal::from_i128_with_scale(mantissa, scale);
    rust_decimal::MathematicalOps::checked_powu(&b, exponent).map(|y| (y.mantissa(), y.scale()))
}

} // verus!
