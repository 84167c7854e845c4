use chrono::{Duration, Utc};
use decay_voting::fixed::Fixed;
use decay_voting::threshold::{
    threshold_at, threshold_for_minutes, ThresholdEmergency, ThresholdModel, MAX_THRESHOLD,
    MIN_THRESHOLD,
};
use decay_voting::time::Timestamp;

fn stamp(t: chrono::DateTime<Utc>) -> Timestamp {
    Timestamp::new(t.timestamp(), t.timestamp_subsec_nanos()).unwrap()
}

fn fx(x: f64) -> Fixed {
    (x * 1e9).round() as Fixed
}

fn as_float(x: Fixed) -> f64 {
    x as f64 / 1e9
}

#[test]
fn test_linear_threshold_10_minutes() {
    let start = Utc::now();
    let now = start + Duration::minutes(10);
    let model = ThresholdModel::Linear(fx(0.01));
    let result = as_float(threshold_at(stamp(start), stamp(now), &model, None));
    assert!((result - 0.61).abs() < 0.001, "Expected ~0.61, got {}", result);
}

#[test]
fn test_exponential_threshold_growth() {
    let start = Utc::now();
    let now = start + Duration::minutes(5);
    let model = ThresholdModel::Exponential(fx(0.05));
    let result = threshold_at(stamp(start), stamp(now), &model, None);
    assert!(result > MIN_THRESHOLD, "Should increase above minimum");
    assert!(result <= MAX_THRESHOLD, "Should not exceed maximum");
}

#[test]
fn test_sigmoid_midpoint_behavior() {
    let start = Utc::now();
    let now = start + Duration::minutes(10);
    let model = ThresholdModel::Sigmoid {
        steepness: fx(1.0),
        midpoint: fx(10.0),
    };
    let result = threshold_at(stamp(start), stamp(now), &model, None);
    assert!(
        result > MIN_THRESHOLD && result < MAX_THRESHOLD,
        "Expected value in range, got {}",
        result
    );
}

#[test]
fn test_step_function_threshold() {
    let start = Utc::now();
    let now = start + Duration::minutes(15);
    let model = ThresholdModel::StepFn(vec![
        (0, fx(0.51)),
        (5, fx(0.55)),
        (10, fx(0.65)),
        (15, fx(0.75)),
    ]);
    let result = as_float(threshold_at(stamp(start), stamp(now), &model, None));
    assert!((result - 0.75).abs() < 0.001, "Expected 0.75, got {}", result);
}

#[test]
fn test_emergency_override_threshold() {
    let start = Utc::now();
    let now = start + Duration::minutes(50);
    let model = ThresholdModel::Linear(fx(0.01));
    let result = as_float(threshold_at(
        stamp(start),
        stamp(now),
        &model,
        Some(ThresholdEmergency::Emergency(fx(0.85))),
    ));
    assert!((result - 0.85).abs() < 0.001, "Emergency override failed");
}

#[test]
fn test_threshold_min_max_clamp() {
    let start = Utc::now();
    let now = start + Duration::minutes(1000);
    let model = ThresholdModel::Linear(fx(0.01));
    let result = as_float(threshold_at(stamp(start), stamp(now), &model, None));
    assert!(
        (result - as_float(MAX_THRESHOLD)).abs() < 0.0001,
        "Expected clamped max threshold"
    );
}

#[test]
fn override_is_returned_exactly_and_clamped() {
    let start = Timestamp::new(1_700_000_000, 0).unwrap();
    let models = vec![
        ThresholdModel::Linear(fx(0.01)),
        ThresholdModel::Exponential(fx(0.3)),
        ThresholdModel::Sigmoid { steepness: fx(2.0), midpoint: fx(3.0) },
        ThresholdModel::StepFn(vec![(1, fx(0.6))]),
    ];
    for model in models.iter() {
        for minutes in [0i64, 1, 50, 100_000] {
            let now = Timestamp::new(1_700_000_000 + 60 * minutes, 0).unwrap();
            let kept = threshold_at(start, now, model, Some(ThresholdEmergency::Emergency(fx(0.85))));
            assert_eq!(kept, 850_000_000);
            let high = threshold_at(start, now, model, Some(ThresholdEmergency::Emergency(fx(0.99))));
            assert_eq!(high, 900_000_000);
            let low = threshold_at(start, now, model, Some(ThresholdEmergency::Emergency(fx(-3.0))));
            assert_eq!(low, 510_000_000);
        }
    }
}

#[test]
fn threshold_stays_in_band_for_extreme_inputs() {
    let early = Timestamp::new(-8_334_601_228_800, 0).unwrap();
    let late = Timestamp::new(8_210_266_876_799, 999_999_999).unwrap();
    let models = vec![
        ThresholdModel::Linear(i64::MAX),
        ThresholdModel::Linear(i64::MIN),
        ThresholdModel::Exponential(i64::MAX),
        ThresholdModel::Exponential(i64::MIN),
        ThresholdModel::Exponential(fx(-0.5)),
        ThresholdModel::Exponential(fx(-3.0)),
        ThresholdModel::Exponential(0),
        ThresholdModel::Sigmoid { steepness: i64::MAX, midpoint: i64::MIN },
        ThresholdModel::Sigmoid { steepness: i64::MIN, midpoint: i64::MAX },
        ThresholdModel::Sigmoid { steepness: fx(0.000001), midpoint: 0 },
        ThresholdModel::StepFn(vec![(0, i64::MAX), (1, i64::MIN)]),
        ThresholdModel::StepFn(vec![]),
    ];
    for model in models.iter() {
        for (start, now) in [(early, late), (late, early), (early, early)] {
            let r = threshold_at(start, now, model, None);
            assert!(MIN_THRESHOLD <= r && r <= MAX_THRESHOLD, "got {}", r);
        }
        for minutes in [0u64, 1, 2, 3, 1000, u64::MAX] {
            let r = threshold_for_minutes(model, minutes);
            assert!(MIN_THRESHOLD <= r && r <= MAX_THRESHOLD, "got {}", r);
        }
    }
}

#[test]
fn now_before_start_counts_as_no_time() {
    let start = Timestamp::new(1_700_000_600, 0).unwrap();
    let now = Timestamp::new(1_700_000_000, 0).unwrap();
    let r = threshold_at(start, now, &ThresholdModel::Linear(fx(0.01)), None);
    assert_eq!(r, MIN_THRESHOLD);
}

#[test]
fn linear_threshold_exact_value() {
    // 0.51 + 0.01 * 10 = 0.61
    assert_eq!(threshold_for_minutes(&ThresholdModel::Linear(fx(0.01)), 10), 610_000_000);
}

#[test]
fn exponential_threshold_follows_the_power() {
    // 0.51 * 1.05^5 = 0.650903598...
    let r = as_float(threshold_for_minutes(&ThresholdModel::Exponential(fx(0.05)), 5));
    assert!((r - 0.650903598).abs() < 1e-6, "got {}", r);
    // 0.51 * 1.0001^2000 = 0.51 * 1.221390...: the power comes from many squarings
    let slow = as_float(threshold_for_minutes(&ThresholdModel::Exponential(fx(0.0001)), 2000));
    assert!((slow - 0.51 * 1.0001f64.powf(2000.0)).abs() < 1e-6, "got {}", slow);
}

#[test]
fn exponential_threshold_saturates() {
    assert_eq!(threshold_for_minutes(&ThresholdModel::Exponential(fx(1.0)), 1_000_000), MAX_THRESHOLD);
    assert_eq!(threshold_for_minutes(&ThresholdModel::Exponential(fx(-0.5)), 1_000_000), MIN_THRESHOLD);
    assert_eq!(threshold_for_minutes(&ThresholdModel::Exponential(fx(-3.0)), 1_000_001), MIN_THRESHOLD);
    assert_eq!(threshold_for_minutes(&ThresholdModel::Exponential(fx(-3.0)), 1_000_000), MAX_THRESHOLD);
}

#[test]
fn sigmoid_is_halfway_at_the_midpoint() {
    let model = ThresholdModel::Sigmoid { steepness: fx(1.0), midpoint: fx(10.0) };
    // 0.51 + 0.39 / 2
    assert_eq!(threshold_for_minutes(&model, 10), 705_000_000);
    // 0.51 + 0.39 / (1 + e^-2) = 0.853511...
    let later = as_float(threshold_for_minutes(&model, 12));
    assert!((later - (0.51 + 0.39 / (1.0 + (-2.0f64).exp()))).abs() < 1e-6, "got {}", later);
    let earlier = as_float(threshold_for_minutes(&model, 7));
    assert!((earlier - (0.51 + 0.39 / (1.0 + (3.0f64).exp()))).abs() < 1e-6, "got {}", earlier);
    assert_eq!(threshold_for_minutes(&model, 1_000_000), MAX_THRESHOLD);
}

#[test]
fn step_function_takes_the_last_match_in_list_order() {
    let unordered = ThresholdModel::StepFn(vec![(10, fx(0.8)), (0, fx(0.6))]);
    assert_eq!(threshold_for_minutes(&unordered, 20), 600_000_000);
    assert_eq!(threshold_for_minutes(&unordered, 5), 600_000_000);
    let ordered = ThresholdModel::StepFn(vec![(5, fx(0.6)), (10, fx(0.8))]);
    assert_eq!(threshold_for_minutes(&ordered, 4), MIN_THRESHOLD);
    assert_eq!(threshold_for_minutes(&ordered, 5), 600_000_000);
    assert_eq!(threshold_for_minutes(&ordered, 10), 800_000_000);
}
