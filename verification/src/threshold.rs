//! The fraction of yes-votes that a proposal needs, as it grows with the
//! time since voting opened.
//!
//! A [`ThresholdModel`] turns elapsed minutes into a fraction. Whatever the
//! model gives is kept between [`MIN_THRESHOLD`] and [`MAX_THRESHOLD`]; an
//! emergency override replaces the model and is kept to the same band.

use vstd::prelude::*;
use crate::decimal::{exp_fixed, exp_nanos, pow_fixed, pow_nanos, FACTOR_MAX};
use crate::fixed::{clamp, div_floor, lemma_product_sign, mul_scaled, scaled, Fixed, SCALE};
use crate::time::{elapsed_minutes, elapsed_minutes_spec, Timestamp};

verus! {

/// The least fraction that is ever required: 0.51.
pub const MIN_THRESHOLD: Fixed = 510_000_000;

/// The largest fraction that is ever required: 0.90.
pub const MAX_THRESHOLD: Fixed = 900_000_000;

/// The rule by which the required fraction grows.
pub enum ThresholdModel {
    /// Grows by the factor `1 + growth_rate` every minute.
    Exponential(Fixed),
    /// Grows by `slope` every minute.
    Linear(Fixed),
    /// Rises along a logistic curve that is halfway up at `midpoint` minutes.
    Sigmoid { steepness: Fixed, midpoint: Fixed },
    /// Jumps to the value of each breakpoint `(minutes, value)` when its
    /// time has come; where several have, the last in the list counts.
    StepFn(Vec<(u64, Fixed)>),
}

/// A required fraction that replaces the model's.
#[derive(Clone, Copy, Debug, PartialEq, Eq, Structural)]
pub enum ThresholdEmergency {
    Emergency(Fixed),
}

/// `x` kept to the band from [`MIN_THRESHOLD`] to [`MAX_THRESHOLD`].
pub open spec fn clamp_threshold(x: int) -> int {
    clamp(x, MIN_THRESHOLD as int, MAX_THRESHOLD as int)
}

/// The value of the last breakpoint in `steps` whose time is not after
/// `minutes`, or [`MIN_THRESHOLD`] where there is none.
pub open spec fn step_value(steps: Seq<(u64, Fixed)>, minutes: int) -> int
    decreases steps.len(),
{
    if steps.len() == 0 {
        MIN_THRESHOLD as int
    } else if steps.last().0 <= minutes {
        steps.last().1 as int
    } else {
        step_value(steps.drop_last(), minutes)
    }
}

/// The part of the band that a logistic curve has climbed at `t`, where `t`
/// is steepness times distance from the midpoint, both in billionths:
/// the width of the band divided by `1 + e^(-t)`.
pub open spec fn sigmoid_share(t: int) -> int {
    ((MAX_THRESHOLD - MIN_THRESHOLD) * SCALE) / (SCALE + exp_nanos(-t, 18))
}

/// What `model` asks for after `minutes` minutes, before it is kept to the
/// band.
pub open spec fn model_threshold(model: ThresholdModel, minutes: int) -> int {
    match model {
        ThresholdModel::Exponential(growth_rate) => scaled(
            MIN_THRESHOLD * pow_nanos(SCALE + growth_rate, minutes),
        ),
        ThresholdModel::Linear(slope) => MIN_THRESHOLD + slope * minutes,
        ThresholdModel::Sigmoid { steepness, midpoint } => MIN_THRESHOLD + sigmoid_share(
            steepness * (minutes * SCALE - midpoint),
        ),
        ThresholdModel::StepFn(steps) => step_value(steps@, minutes),
    }
}

/// The fraction required after `minutes` minutes: the override where there
/// is one, else what the model asks for, kept to the band either way.
pub open spec fn threshold_after(
    model: ThresholdModel,
    minutes: int,
    override_mode: Option<ThresholdEmergency>,
) -> int {
    match override_mode {
        Some(ThresholdEmergency::Emergency(value)) => clamp_threshold(value as int),
        None => clamp_threshold(model_threshold(model, minutes)),
    }
}

/// Keeps a fraction to the band from [`MIN_THRESHOLD`] to [`MAX_THRESHOLD`].
pub fn clamp_to_band(x: i128) -> (r: Fixed)
    ensures
        r == clamp_threshold(x as int),
        MIN_THRESHOLD <= r <= MAX_THRESHOLD,
{
    if x < MIN_THRESHOLD as i128 {
        MIN_THRESHOLD
    } else if x > MAX_THRESHOLD as i128 {
        MAX_THRESHOLD
    } else {
        x as i64
    }
}

/// The value of the last breakpoint whose time is not after `minutes`.
pub fn step_threshold(steps: &Vec<(u64, Fixed)>, minutes: u64) -> (r: Fixed)
    ensures
        r == step_value(steps@, minutes as int),
{
    let mut threshold: Fixed = MIN_THRESHOLD;
    let mut i: usize = 0;
    while i < steps.len()
        invariant
            i <= steps.len(),
            threshold == step_value(steps@.take(i as int), minutes as int),
        decreases steps.len() - i,
    {
        let (time, value) = steps[i];
        proof {
            let longer = steps@.take(i + 1);
            assert(longer.drop_last() == steps@.take(i as int));
            assert(longer.last() == steps@[i as int]);
        }
        if time <= minutes {
            threshold = value;
        }
        i = i + 1;
    }
    proof {
        assert(steps@.take(steps.len() as int) == steps@);
    }
    threshold
}

/// The part of the band that a logistic curve has climbed, given the factor
/// `e^(-t)` in billionths.
pub fn share_for_factor(factor: i128) -> (r: i128)
    requires
        factor >= 0,
    ensures
        r == ((MAX_THRESHOLD - MIN_THRESHOLD) * SCALE) / (SCALE + factor),
        0 <= r <= MAX_THRESHOLD - MIN_THRESHOLD,
{
    let width: i128 = (MAX_THRESHOLD as i128 - MIN_THRESHOLD as i128) * (SCALE as i128);
    proof {
        lemma_share_bounds(factor as int);
    }
    match (SCALE as i128).checked_add(factor) {
        Some(denominator) => div_floor(width, denominator),
        None => 0,
    }
}

/// The part of the band that a logistic curve of the given steepness has
/// climbed at `minutes`, where it is halfway up at `midpoint`.
pub fn sigmoid_climb(steepness: Fixed, midpoint: Fixed, minutes: u64) -> (r: i128)
    ensures
        r == sigmoid_share(steepness * (minutes * SCALE - midpoint)),
        0 <= r <= MAX_THRESHOLD - MIN_THRESHOLD,
{
    let distance: i128 = (minutes as i128) * 1_000_000_000 - (midpoint as i128);
    let ghost t = steepness * (minutes * SCALE - midpoint);
    let factor: i128 = match (steepness as i128).checked_mul(distance) {
        Some(product) => {
            if product == i128::MIN {
                FACTOR_MAX
            } else {
                exp_fixed(-product, 18)
            }
        },
        None => {
            proof {
                lemma_product_sign(steepness as int, distance as int);
            }
            if (steepness > 0) == (distance > 0) {
                0
            } else {
                FACTOR_MAX
            }
        },
    };
    assert(factor == exp_nanos(-t, 18));
    share_for_factor(factor)
}

/// The fraction of yes-votes required at `now`, where voting opened at
/// `start_time`.
///
/// An override replaces the model. Time is counted in whole minutes, and a
/// `now` before `start_time` counts as no time elapsed. The result always
/// lies in the band from [`MIN_THRESHOLD`] to [`MAX_THRESHOLD`].
pub fn threshold_at(
    start_time: Timestamp,
    now: Timestamp,
    model: &ThresholdModel,
    override_mode: Option<ThresholdEmergency>,
) -> (r: Fixed)
    ensures
        r == threshold_after(*model, elapsed_minutes_spec(start_time, now), override_mode),
        MIN_THRESHOLD <= r <= MAX_THRESHOLD,
        override_mode matches Some(ThresholdEmergency::Emergency(value)) ==> r == clamp_threshold(
            value as int,
        ),
{
    if let Some(ThresholdEmergency::Emergency(value)) = override_mode {
        return clamp_to_band(value as i128);
    }
    let minutes = elapsed_minutes(&start_time, &now);
    threshold_for_minutes(model, minutes)
}

/// The fraction of yes-votes that `model` requires after `minutes` minutes.
pub fn threshold_for_minutes(model: &ThresholdModel, minutes: u64) -> (r: Fixed)
    ensures
        r == clamp_threshold(model_threshold(*model, minutes as int)),
        MIN_THRESHOLD <= r <= MAX_THRESHOLD,
{
    match model {
        ThresholdModel::Exponential(growth_rate) => {
            let base: i128 = SCALE as i128 + *growth_rate as i128;
            let power = pow_fixed(base, minutes);
            clamp_to_band(mul_scaled(MIN_THRESHOLD, power) as i128)
        },
        ThresholdModel::Linear(slope) => {
            proof {
                lemma_slope_product_fits(*slope as int, minutes as int);
            }
            let grown: i128 = (*slope as i128) * (minutes as i128);
            match (MIN_THRESHOLD as i128).checked_add(grown) {
                Some(base) => clamp_to_band(base),
                None => MAX_THRESHOLD,
            }
        },
        ThresholdModel::Sigmoid { steepness, midpoint } => {
            let share = sigmoid_climb(*steepness, *midpoint, minutes);
            clamp_to_band(MIN_THRESHOLD as i128 + share)
        },
        ThresholdModel::StepFn(steps) => clamp_to_band(step_threshold(steps, minutes) as i128),
    }
}

/// The required fraction lies in the band from [`MIN_THRESHOLD`] to
/// [`MAX_THRESHOLD`] for every model, every count of minutes and every
/// override.
pub proof fn lemma_threshold_in_band(
    model: ThresholdModel,
    minutes: int,
    override_mode: Option<ThresholdEmergency>,
)
    ensures
        MIN_THRESHOLD <= threshold_after(model, minutes, override_mode) <= MAX_THRESHOLD,
{
}

/// An override decides the required fraction alone: the model and the time
/// elapsed make no difference, and a value outside the band is moved to the
/// nearer end of it.
pub proof fn lemma_override_decides(
    value: Fixed,
    model_a: ThresholdModel,
    minutes_a: int,
    model_b: ThresholdModel,
    minutes_b: int,
)
    ensures
        threshold_after(model_a, minutes_a, Some(ThresholdEmergency::Emergency(value)))
            == threshold_after(model_b, minutes_b, Some(ThresholdEmergency::Emergency(value))),
        MIN_THRESHOLD <= value <= MAX_THRESHOLD ==> threshold_after(
            model_a,
            minutes_a,
            Some(ThresholdEmergency::Emergency(value)),
        ) == value,
        value > MAX_THRESHOLD ==> threshold_after(
            model_a,
            minutes_a,
            Some(ThresholdEmergency::Emergency(value)),
        ) == MAX_THRESHOLD,
        value < MIN_THRESHOLD ==> threshold_after(
            model_a,
            minutes_a,
            Some(ThresholdEmergency::Emergency(value)),
        ) == MIN_THRESHOLD,
{
}

/// Whether the breakpoints stand in the order of their times.
pub open spec fn steps_ascending(steps: Seq<(u64, Fixed)>) -> bool {
    forall|i: int, j: int| 0 <= i <= j < steps.len() ==> steps[i].0 <= steps[j].0
}

/// Where the breakpoints stand in the order of their times, the value
/// required is that of the latest breakpoint whose time has come: the
/// breakpoint at `k` where the one after it, if there is one, still lies
/// ahead.
pub proof fn lemma_step_value_ascending(steps: Seq<(u64, Fixed)>, minutes: int, k: int)
    requires
        steps_ascending(steps),
        0 <= k < steps.len(),
        steps[k].0 <= minutes,
        k + 1 < steps.len() ==> steps[k + 1].0 > minutes,
    ensures
        step_value(steps, minutes) == steps[k].1,
    decreases steps.len(),
{
    if k + 1 < steps.len() {
        assert(steps.last().0 >= steps[k + 1].0);
        let shorter = steps.drop_last();
        assert(steps_ascending(shorter)) by {
            assert forall|i: int, j: int| 0 <= i <= j < shorter.len() implies shorter[i].0
                <= shorter[j].0 by {
                assert(shorter[i] == steps[i] && shorter[j] == steps[j]);
            }
        }
        assert(shorter[k] == steps[k]);
        if k + 1 < shorter.len() {
            assert(shorter[k + 1] == steps[k + 1]);
        }
        lemma_step_value_ascending(shorter, minutes, k);
    }
}

/// Where no breakpoint's time has come, the least fraction is required.
pub proof fn lemma_step_value_before_all(steps: Seq<(u64, Fixed)>, minutes: int)
    requires
        forall|i: int| 0 <= i < steps.len() ==> steps[i].0 > minutes,
    ensures
        step_value(steps, minutes) == MIN_THRESHOLD,
    decreases steps.len(),
{
    if steps.len() > 0 {
        let shorter = steps.drop_last();
        assert forall|i: int| 0 <= i < shorter.len() implies shorter[i].0 > minutes by {
            assert(shorter[i] == steps[i]);
        }
        lemma_step_value_before_all(shorter, minutes);
    }
}

/// The width of the band divided by one or more is between nothing and the
/// width, and nothing where the divisor exceeds the range of `i128`.
proof fn lemma_share_bounds(factor: int)
    requires
        factor >= 0,
    ensures
        0 <= ((MAX_THRESHOLD - MIN_THRESHOLD) * SCALE) / (SCALE + factor) <= MAX_THRESHOLD
            - MIN_THRESHOLD,
        SCALE + factor > i128::MAX ==> ((MAX_THRESHOLD - MIN_THRESHOLD) * SCALE) / (SCALE + factor)
            == 0,
{
    let width = (MAX_THRESHOLD - MIN_THRESHOLD) * SCALE;
    let d = SCALE + factor;
    assert(width == 390_000_000_000_000_000);
    vstd::arithmetic::div_mod::lemma_div_is_ordered_by_denominator(width, SCALE as int, d);
    vstd::arithmetic::div_mod::lemma_div_pos_is_pos(width, d);
    if d > i128::MAX {
        vstd::arithmetic::div_mod::lemma_basic_div(width, d);
    }
}

/// The product of a slope and a count of minutes fits in `i128`.
proof fn lemma_slope_product_fits(slope: int, minutes: int)
    requires
        i64::MIN <= slope <= i64::MAX,
        0 <= minutes <= u64::MAX,
    ensures
        -(i128::MAX as int) <= slope * minutes <= i128::MAX,
{
    assert(-(i128::MAX as int) <= slope * minutes <= i128::MAX) by (nonlinear_arith)
        requires
            -0x8000_0000_0000_0000 <= slope <= 0x7fff_ffff_ffff_ffff,
            0 <= minutes <= 0xffff_ffff_ffff_ffff,
    ;
}

} // verus!
