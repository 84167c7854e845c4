use decay_voting::decimal::{
    exp_fixed, exp_from_reading, pow_fixed, pow_from_reading, power_of_ten, reading_to_nanos,
    FACTOR_MAX, FACTOR_MIN,
};
use decay_voting::decay::{apply_multiplier, multiplier_after, weight_after, DecayModel};
use decay_voting::fixed::{div_floor, mul_scaled, saturate, SCALE};
use decay_voting::threshold::{clamp_to_band, share_for_factor, sigmoid_climb, step_threshold};

#[test]
fn floor_division_rounds_towards_negative_infinity() {
    assert_eq!(div_floor(7, 2), 3);
    assert_eq!(div_floor(-7, 2), -4);
    assert_eq!(div_floor(-8, 2), -4);
    assert_eq!(div_floor(0, 5), 0);
    assert_eq!(div_floor(i128::MIN, 1), i128::MIN);
    assert_eq!(div_floor(i128::MAX, i128::MAX), 1);
    assert_eq!(div_floor(-1, i128::MAX), -1);
}

#[test]
fn scaled_product_rounds_down_and_saturates() {
    assert_eq!(SCALE, 1_000_000_000);
    assert_eq!(mul_scaled(2_000_000_000, 1_500_000_000), 3_000_000_000);
    assert_eq!(mul_scaled(1, 999_999_999), 0);
    assert_eq!(mul_scaled(-1, 999_999_999), -1);
    assert_eq!(mul_scaled(1, -1), -1);
    assert_eq!(mul_scaled(i64::MAX, 1_000_000_001), i64::MAX);
    assert_eq!(mul_scaled(i64::MIN, 1_000_000_001), i64::MIN);
    assert_eq!(mul_scaled(i64::MAX, i128::MAX), i64::MAX);
    assert_eq!(mul_scaled(i64::MAX, i128::MIN), i64::MIN);
    assert_eq!(mul_scaled(i64::MIN, i128::MIN), i64::MAX);
    assert_eq!(mul_scaled(0, i128::MIN), 0);
    assert_eq!(mul_scaled(1, i128::MAX), i64::MAX);
    assert_eq!(saturate(i128::MAX), i64::MAX);
    assert_eq!(saturate(i128::MIN), i64::MIN);
    assert_eq!(saturate(-5), -5);
}

#[test]
fn readings_are_rounded_down_to_billionths() {
    assert_eq!(power_of_ten(0), 1);
    assert_eq!(power_of_ten(28), 10_000_000_000_000_000_000_000_000_000);
    assert_eq!(reading_to_nanos(15, 1), 1_500_000_000);
    assert_eq!(reading_to_nanos(3, 0), 3_000_000_000);
    assert_eq!(reading_to_nanos(12_345_678_919, 10), 1_234_567_891);
    assert_eq!(reading_to_nanos(-12_345_678_911, 10), -1_234_567_892);
    assert_eq!(reading_to_nanos(1, 28), 0);
    assert_eq!(reading_to_nanos(-1, 28), -1);
    let largest = (1i128 << 96) - 1;
    assert_eq!(reading_to_nanos(largest, 0), largest * 1_000_000_000);
}

#[test]
fn exponential_readings() {
    assert_eq!(exp_from_reading(5, Some((25, 1))), 2_500_000_000);
    assert_eq!(exp_from_reading(5, Some((-25, 1))), 0);
    assert_eq!(exp_from_reading(5, None), FACTOR_MAX);
    assert_eq!(exp_from_reading(-5, None), 0);
    assert_eq!(exp_fixed(0, 9), 1_000_000_000);
    assert_eq!(exp_fixed(0, 28), 1_000_000_000);
    // e = 2.718281828...
    assert_eq!(exp_fixed(1_000_000_000, 9), 2_718_281_828);
    assert_eq!(exp_fixed(1, 0), 2_718_281_828);
    // 1/e = 0.367879441...
    assert_eq!(exp_fixed(-1_000_000_000, 9), 367_879_441);
    assert_eq!(exp_fixed(1_000, 0), FACTOR_MAX);
    assert_eq!(exp_fixed(-1_000, 0), 0);
    assert_eq!(exp_fixed(1i128 << 96, 9), FACTOR_MAX);
    assert_eq!(exp_fixed(-(1i128 << 96), 9), 0);
    assert_eq!(exp_fixed(i128::MAX, 18), FACTOR_MAX);
    assert_eq!(exp_fixed(i128::MIN, 18), 0);
}

#[test]
fn power_readings() {
    assert_eq!(pow_from_reading(2_000_000_000, 3, Some((8, 0))), 8_000_000_000);
    assert_eq!(pow_from_reading(2_000_000_000, 3, None), FACTOR_MAX);
    assert_eq!(pow_from_reading(-2_000_000_000, 3, None), FACTOR_MIN);
    assert_eq!(pow_from_reading(-2_000_000_000, 4, None), FACTOR_MAX);
    assert_eq!(pow_from_reading(500_000_000, 4, None), 0);
    assert_eq!(pow_from_reading(-1_000_000_000, 5, None), 0);
    assert_eq!(pow_fixed(2_000_000_000, 10), 1_024_000_000_000);
    assert_eq!(pow_fixed(-2_000_000_000, 3), -8_000_000_000);
    assert_eq!(pow_fixed(1_500_000_000, 2), 2_250_000_000);
    assert_eq!(pow_fixed(123, 0), 1_000_000_000);
    assert_eq!(pow_fixed(0, 5), 0);
    assert_eq!(pow_fixed(2_000_000_000, 1_000), FACTOR_MAX);
    assert_eq!(pow_fixed(-2_000_000_000, 1_001), FACTOR_MIN);
    assert_eq!(pow_fixed(500_000_000, 1_000_000), 0);
}

#[test]
fn multipliers_of_the_decay_models() {
    assert_eq!(multiplier_after(&DecayModel::Linear(10_000_000), 30), 700_000_000);
    assert_eq!(multiplier_after(&DecayModel::Linear(-10_000_000), 30), 1_300_000_000);
    assert_eq!(
        multiplier_after(&DecayModel::Linear(i64::MIN), u64::MAX),
        1_000_000_000 + (1i128 << 63) * (u64::MAX as i128)
    );
    assert_eq!(
        multiplier_after(&DecayModel::Stepped { step_interval_secs: 30, decay_factor: 100_000_000 }, 95),
        700_000_000
    );
    assert_eq!(multiplier_after(&DecayModel::Exponential(1_000_000_000), 1), 367_879_441);
    assert_eq!(multiplier_after(&DecayModel::Exponential(1_000_000_000), 0), 1_000_000_000);
    assert_eq!(apply_multiplier(80_000_000_000, 700_000_000), 56_000_000_000);
    assert_eq!(apply_multiplier(80_000_000_000, 0), 8_000_000_000);
    assert_eq!(apply_multiplier(80_000_000_000, i128::MIN), 8_000_000_000);
    assert_eq!(apply_multiplier(80_000_000_000, i128::MAX), i64::MAX);
    assert_eq!(apply_multiplier(i64::MIN, 1_000_000_000), -922_337_203_685_477_580);
    assert_eq!(
        weight_after(80_000_000_000, 90, DecayModel::Stepped { step_interval_secs: 30, decay_factor: 100_000_000 }),
        56_000_000_000
    );
    assert_eq!(weight_after(5, u64::MAX, DecayModel::Linear(1)), 1);
}

#[test]
fn parts_of_the_threshold_models() {
    assert_eq!(clamp_to_band(i128::MIN), 510_000_000);
    assert_eq!(clamp_to_band(i128::MAX), 900_000_000);
    assert_eq!(clamp_to_band(700_000_000), 700_000_000);
    assert_eq!(share_for_factor(0), 390_000_000);
    assert_eq!(share_for_factor(1_000_000_000), 195_000_000);
    assert_eq!(share_for_factor(i128::MAX), 0);
    assert_eq!(share_for_factor(2_000_000_000), 130_000_000);
    assert_eq!(sigmoid_climb(1_000_000_000, 10_000_000_000, 10), 195_000_000);
    assert_eq!(sigmoid_climb(i64::MAX, i64::MIN, u64::MAX), 390_000_000);
    assert_eq!(sigmoid_climb(i64::MIN, i64::MIN, u64::MAX), 0);
    assert_eq!(sigmoid_climb(0, 5, 77), 195_000_000);
    assert_eq!(step_threshold(&vec![], 5), 510_000_000);
    assert_eq!(step_threshold(&vec![(5, 1), (5, 2), (6, 3)], 5), 2);
}
