//! How a vote's weight shrinks with the time since voting opened.
//!
//! A [`DecayModel`] turns elapsed seconds into a multiplier; the decayed
//! weight is the vote's weight times that multiplier, and never less than a
//! tenth of the weight.

use vstd::prelude::*;
use crate::decimal::{exp_fixed, exp_nanos, FACTOR_MAX, FACTOR_MIN};
use crate::fixed::{
    clamp, div_ceil, div_floor, lemma_product_sign, mul_scaled, saturated, scaled, Fixed, SCALE,
};
use crate::time::{elapsed_seconds, elapsed_seconds_spec, Timestamp};

verus! {

/// The rule by which a weight decays.
#[derive(Clone, Copy, Debug, PartialEq, Eq, Structural)]
pub enum DecayModel {
    /// Loses `rate` of the weight every second.
    Linear(Fixed),
    /// Shrinks by the factor `e^(-rate)` every second.
    Exponential(Fixed),
    /// Loses `decay_factor` of the weight at the end of every interval.
    Stepped { step_interval_secs: u64, decay_factor: Fixed },
}

/// A tenth of `weight`, rounded up: the least a decayed weight can be.
pub open spec fn weight_floor(weight: int) -> int {
    div_ceil(weight, 10)
}

/// The multiplier, in billionths, that `model` puts on a weight after
/// `elapsed` seconds.
///
/// A stepped model with an interval of zero seconds has taken no step while
/// no time has passed and more steps than can be counted afterwards: its
/// multiplier is then beyond every number, on the side to which the steps
/// lead.
pub open spec fn decay_multiplier(model: DecayModel, elapsed: int) -> int {
    match model {
        DecayModel::Linear(rate) => SCALE - rate * elapsed,
        DecayModel::Exponential(rate) => exp_nanos(-(rate * elapsed), 9),
        DecayModel::Stepped { step_interval_secs, decay_factor } => {
            if step_interval_secs > 0 {
                SCALE - decay_factor * (elapsed / (step_interval_secs as int))
            } else if elapsed == 0 || decay_factor == 0 {
                SCALE as int
            } else if decay_factor > 0 {
                FACTOR_MIN as int
            } else {
                FACTOR_MAX as int
            }
        },
    }
}

/// `weight` times a multiplier in billionths, rounded down, kept to the
/// range of [`Fixed`] and then to no less than a tenth of `weight`.
pub open spec fn weight_times(weight: int, multiplier: int) -> int {
    let decayed = saturated(scaled(weight * multiplier));
    if decayed < weight_floor(weight) {
        weight_floor(weight)
    } else {
        decayed
    }
}

/// The weight that is left of `weight` after `elapsed` seconds under `model`.
pub open spec fn decayed_weight(weight: int, elapsed: int, model: DecayModel) -> int {
    weight_times(weight, decay_multiplier(model, elapsed))
}

/// The multiplier that `model` puts on a weight after `elapsed` seconds,
/// stopped at the ends of the range of `i128`.
pub fn multiplier_after(model: &DecayModel, elapsed: u64) -> (r: i128)
    ensures
        r == clamp(decay_multiplier(*model, elapsed as int), i128::MIN as int, i128::MAX as int),
{
    match *model {
        DecayModel::Linear(rate) => {
            proof {
                lemma_rate_product_fits(rate as int, elapsed as int);
            }
            let lost: i128 = (rate as i128) * (elapsed as i128);
            one_minus(lost)
        },
        DecayModel::Exponential(rate) => {
            proof {
                lemma_rate_product_fits(rate as int, elapsed as int);
            }
            let exponent: i128 = -((rate as i128) * (elapsed as i128));
            exp_fixed(exponent, 9)
        },
        DecayModel::Stepped { step_interval_secs, decay_factor } => {
            if step_interval_secs > 0 {
                let steps: u64 = elapsed / step_interval_secs;
                proof {
                    lemma_rate_product_fits(decay_factor as int, steps as int);
                }
                let lost: i128 = (decay_factor as i128) * (steps as i128);
                one_minus(lost)
            } else if elapsed == 0 || decay_factor == 0 {
                SCALE as i128
            } else if decay_factor > 0 {
                FACTOR_MIN
            } else {
                FACTOR_MAX
            }
        },
    }
}

/// One whole less `lost`, stopped at the top of the range of `i128`.
fn one_minus(lost: i128) -> (r: i128)
    ensures
        r == clamp(SCALE - lost, i128::MIN as int, i128::MAX as int),
{
    match (SCALE as i128).checked_sub(lost) {
        Some(m) => m,
        None => i128::MAX,
    }
}

/// Puts a multiplier in billionths on `weight`: the product rounded down,
/// and no less than a tenth of `weight`.
pub fn apply_multiplier(weight: Fixed, multiplier: i128) -> (r: Fixed)
    ensures
        r == weight_times(weight as int, multiplier as int),
        10 * r >= weight,
{
    let decayed = mul_scaled(weight, multiplier);
    let floor: i128 = -div_floor(-(weight as i128), 10);
    if (decayed as i128) < floor {
        floor as i64
    } else {
        decayed
    }
}

/// The weight that is left of `vote_weight` at `vote_time`, where voting
/// opened at `vote_start`.
///
/// Time is counted in whole seconds, and a `vote_time` before `vote_start`
/// counts as no time elapsed. The result is never less than a tenth of
/// `vote_weight`, and a positive weight that no time has worn on is
/// returned unchanged.
pub fn calculate_weight(
    vote_weight: Fixed,
    vote_start: Timestamp,
    vote_time: Timestamp,
    decay_model: DecayModel,
) -> (r: Fixed)
    ensures
        r == decayed_weight(
            vote_weight as int,
            elapsed_seconds_spec(vote_start, vote_time),
            decay_model,
        ),
        10 * r >= vote_weight,
        vote_weight > 0 && elapsed_seconds_spec(vote_start, vote_time) == 0 ==> r == vote_weight,
{
    let elapsed = elapsed_seconds(&vote_start, &vote_time);
    weight_after(vote_weight, elapsed, decay_model)
}

/// The weight that is left of `weight` after `elapsed` seconds under `model`.
pub fn weight_after(weight: Fixed, elapsed: u64, model: DecayModel) -> (r: Fixed)
    ensures
        r == decayed_weight(weight as int, elapsed as int, model),
        10 * r >= weight,
        weight > 0 && elapsed == 0 ==> r == weight,
{
    let multiplier = multiplier_after(&model, elapsed);
    proof {
        lemma_wide_multiplier(weight as int, decay_multiplier(model, elapsed as int));
        if weight > 0 && elapsed == 0 {
            lemma_no_decay_at_start(weight, model);
        }
    }
    apply_multiplier(weight, multiplier)
}

/// No time elapsed leaves a positive weight as it is, whatever the model.
pub proof fn lemma_no_decay_at_start(weight: Fixed, model: DecayModel)
    requires
        weight > 0,
    ensures
        decayed_weight(weight as int, 0, model) == weight,
{
    let m = decay_multiplier(model, 0);
    assert(m == SCALE) by {
        match model {
            DecayModel::Linear(rate) => {
                assert(rate * 0 == 0);
            },
            DecayModel::Exponential(rate) => {
                assert(-(rate * 0) == 0);
            },
            DecayModel::Stepped { step_interval_secs, decay_factor } => {
                if step_interval_secs > 0 {
                    assert(0int / (step_interval_secs as int) == 0);
                    assert(decay_factor * 0 == 0);
                }
            },
        }
    }
    assert(scaled(weight * m) == weight) by {
        vstd::arithmetic::div_mod::lemma_div_by_multiple(weight as int, SCALE as int);
    }
}

/// The decayed weight is never less than a tenth of the weight, whatever
/// the model and however much time has elapsed.
pub proof fn lemma_decay_floor(weight: Fixed, elapsed: int, model: DecayModel)
    ensures
        10 * decayed_weight(weight as int, elapsed, model) >= weight,
        decayed_weight(weight as int, elapsed, model) >= weight_floor(weight as int),
{
}

/// A multiplier beyond the range of `i128` gives the weight that the end of
/// that range gives.
pub proof fn lemma_wide_multiplier(weight: int, multiplier: int)
    requires
        i64::MIN <= weight <= i64::MAX,
    ensures
        weight_times(weight, clamp(multiplier, i128::MIN as int, i128::MAX as int)) == weight_times(
            weight,
            multiplier,
        ),
{
    let clipped = clamp(multiplier, i128::MIN as int, i128::MAX as int);
    if clipped != multiplier && weight != 0 {
        lemma_beyond_range(weight, multiplier);
        lemma_beyond_range(weight, clipped);
    } else if weight == 0 {
        assert(weight * multiplier == 0) by (nonlinear_arith)
            requires
                weight == 0,
        ;
        assert(weight * clipped == 0) by (nonlinear_arith)
            requires
                weight == 0,
        ;
    }
}

/// A product of a non-zero weight and a multiplier at or beyond the ends of
/// the range of `i128` leaves the range of [`Fixed`] on the side of its sign.
proof fn lemma_beyond_range(weight: int, multiplier: int)
    requires
        weight != 0,
        multiplier >= i128::MAX || multiplier <= i128::MIN,
    ensures
        (weight > 0) == (multiplier > 0) ==> saturated(scaled(weight * multiplier)) == i64::MAX,
        (weight > 0) != (multiplier > 0) ==> saturated(scaled(weight * multiplier)) == i64::MIN,
{
    let product = weight * multiplier;
    if (weight > 0) == (multiplier > 0) {
        assert(product >= i128::MAX) by (nonlinear_arith)
            requires
                product == weight * multiplier,
                (weight >= 1 && multiplier >= i128::MAX) || (weight <= -1 && multiplier
                    <= i128::MIN),
        ;
    } else {
        assert(product <= -(i128::MAX as int)) by (nonlinear_arith)
            requires
                product == weight * multiplier,
                (weight >= 1 && multiplier <= i128::MIN) || (weight <= -1 && multiplier
                    >= i128::MAX),
        ;
    }
}

/// The product of a rate and a count of seconds or steps fits in `i128`,
/// and so does its negation.
proof fn lemma_rate_product_fits(rate: int, count: int)
    requires
        i64::MIN <= rate <= i64::MAX,
        0 <= count <= u64::MAX,
    ensures
        -(i128::MAX as int) <= rate * count <= i128::MAX,
{
    assert(-(i128::MAX as int) <= rate * count <= i128::MAX) by (nonlinear_arith)
        requires
            -0x8000_0000_0000_0000 <= rate <= 0x7fff_ffff_ffff_ffff,
            0 <= count <= 0xffff_ffff_ffff_ffff,
    ;
}

} // verus!
