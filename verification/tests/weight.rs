use chrono::{Duration, Utc};
use decay_voting::decay::{calculate_weight, DecayModel};
use decay_voting::fixed::Fixed;
use decay_voting::time::Timestamp;
use decay_voting::weight::{WeightEngine, WeightedVote};

fn stamp(t: chrono::DateTime<Utc>) -> Timestamp {
    Timestamp::new(t.timestamp(), t.timestamp_subsec_nanos()).unwrap()
}

fn fx(x: f64) -> Fixed {
    (x * 1e9).round() as Fixed
}

fn sample_vote(
    voter_id: &str,
    orig_weight: Fixed,
    reputation_bonus: Fixed,
    decay_model: DecayModel,
) -> WeightedVote {
    WeightedVote {
        voter_id: voter_id.to_string(),
        vote_time: stamp(Utc::now()),
        orig_weight,
        decay_model,
        reputation_bonus,
    }
}

#[test]
fn test_effective_weight_exponential_decay() {
    let vote_start = Utc::now();
    let now = vote_start + Duration::minutes(10);

    let vote = sample_vote("alice", fx(1.0), fx(0.1), DecayModel::Exponential(fx(0.05)));
    let weight = vote.effective_weight(stamp(vote_start), stamp(now));

    assert!(weight > fx(0.0));
    assert!(weight <= fx(1.1));
}

#[test]
fn test_cache_and_history() {
    let vote_start = Utc::now();
    let now = vote_start + Duration::minutes(5);

    let vote = sample_vote("bob", fx(2.0), fx(0.2), DecayModel::Linear(fx(0.02)));
    let mut engine = WeightEngine::new();

    let weight = engine.calculate_and_cache(&vote, &stamp(vote_start), stamp(now));

    let cached = engine.get_cached_weight("bob").unwrap();
    assert_eq!(cached, weight);

    let history = engine.get_history();
    assert_eq!(history.len(), 1);
    assert_eq!(history[0].0, "bob");
}

#[test]
fn test_batch_updates() {
    let vote_start = Utc::now();
    let now = vote_start + Duration::minutes(2);

    let votes = vec![
        sample_vote("alice", fx(1.0), fx(0.1), DecayModel::Linear(fx(0.03))),
        sample_vote(
            "bob",
            fx(2.0),
            fx(0.0),
            DecayModel::Stepped {
                step_interval_secs: 60,
                decay_factor: fx(0.2),
            },
        ),
    ];

    let mut engine = WeightEngine::new();
    let results = engine.batch_updates(&votes, &stamp(vote_start), stamp(now));

    assert_eq!(results.len(), 2);
    assert!(results.contains_key("alice"));
    assert!(results.contains_key("bob"));
}

#[test]
fn test_set_and_get_reputation() {
    let mut engine = WeightEngine::new();
    engine.set_reputation(&"carol".to_string(), fx(0.3));

    let bonus = engine.reputation.get("carol").unwrap();
    assert_eq!(*bonus, fx(0.3));
}

#[test]
fn effective_weight_exact_value() {
    let start = Timestamp::new(1_700_000_000, 0).unwrap();
    let now = Timestamp::new(1_700_000_010, 0).unwrap();
    let vote = WeightedVote {
        voter_id: "dave".to_string(),
        vote_time: start,
        orig_weight: fx(2.0),
        decay_model: DecayModel::Linear(fx(0.02)),
        reputation_bonus: fx(0.2),
    };
    // 2 * (1 - 0.02 * 10) * (1 + 0.2) = 1.92
    assert_eq!(vote.effective_weight(start, now), fx(1.92));
    let plain = WeightedVote { reputation_bonus: 0, ..vote.clone() };
    assert_eq!(
        plain.effective_weight(start, now),
        calculate_weight(fx(2.0), start, now, DecayModel::Linear(fx(0.02)))
    );
    let huge = WeightedVote { orig_weight: i64::MAX, reputation_bonus: i64::MAX, ..vote.clone() };
    assert_eq!(huge.effective_weight(start, start), i64::MAX);
}

#[test]
fn second_weight_overwrites_cache_and_extends_history() {
    let start = Timestamp::new(1_700_000_000, 0).unwrap();
    let first_time = Timestamp::new(1_700_000_010, 0).unwrap();
    let second_time = Timestamp::new(1_700_000_020, 0).unwrap();
    let vote = WeightedVote {
        voter_id: "erin".to_string(),
        vote_time: start,
        orig_weight: fx(10.0),
        decay_model: DecayModel::Linear(fx(0.01)),
        reputation_bonus: 0,
    };
    let mut engine = WeightEngine::new();
    let first = engine.calculate_and_cache(&vote, &start, first_time);
    let second = engine.calculate_and_cache(&vote, &start, second_time);
    assert_eq!(first, fx(9.0));
    assert_eq!(second, fx(8.0));
    assert_eq!(engine.get_cached_weight("erin"), Some(second));
    assert_eq!(engine.cache.len(), 1);
    let history = engine.get_history();
    assert_eq!(history.len(), 2);
    assert_eq!(history[0], ("erin".to_string(), first, first_time));
    assert_eq!(history[1], ("erin".to_string(), second, second_time));
}

#[test]
fn batch_records_every_vote_and_returns_the_last_per_voter() {
    let start = Timestamp::new(1_700_000_000, 0).unwrap();
    let now = Timestamp::new(1_700_000_010, 0).unwrap();
    let vote = |voter: &str, weight: f64| WeightedVote {
        voter_id: voter.to_string(),
        vote_time: start,
        orig_weight: fx(weight),
        decay_model: DecayModel::Linear(fx(0.01)),
        reputation_bonus: 0,
    };
    let mut engine = WeightEngine::new();
    engine.calculate_and_cache(&vote("zoe", 1.0), &start, now);
    engine.set_reputation(&"zoe".to_string(), fx(0.5));
    let results =
        engine.batch_updates(&[vote("amy", 10.0), vote("ben", 20.0), vote("amy", 30.0)], &start, now);
    assert_eq!(results.len(), 2);
    assert_eq!(results.get("amy"), Some(&fx(27.0)));
    assert_eq!(results.get("ben"), Some(&fx(18.0)));
    assert!(!results.contains_key("zoe"));
    assert_eq!(engine.cache.len(), 3);
    assert_eq!(engine.get_cached_weight("amy"), Some(fx(27.0)));
    assert_eq!(engine.get_cached_weight("ben"), Some(fx(18.0)));
    assert_eq!(engine.get_cached_weight("zoe"), Some(fx(0.9)));
    let history = engine.get_history();
    assert_eq!(history.len(), 4);
    assert_eq!(history[1], ("amy".to_string(), fx(9.0), now));
    assert_eq!(history[2], ("ben".to_string(), fx(18.0), now));
    assert_eq!(history[3], ("amy".to_string(), fx(27.0), now));
    assert_eq!(engine.reputation_bonus("zoe"), fx(0.5));
    let none = engine.batch_updates(&[], &start, now);
    assert_eq!(none.len(), 0);
    assert_eq!(engine.get_history().len(), 4);
}

#[test]
fn reputation_defaults_to_zero_and_is_overwritten() {
    let mut engine = WeightEngine::default();
    assert_eq!(engine.reputation_bonus("nobody"), 0);
    assert_eq!(engine.get_cached_weight("nobody"), None);
    engine.set_reputation(&"carol".to_string(), fx(0.3));
    engine.set_reputation(&"carol".to_string(), fx(0.4));
    assert_eq!(engine.reputation_bonus("carol"), fx(0.4));
    assert_eq!(engine.reputation.len(), 1);
    assert_eq!(engine.get_history().len(), 0);
}
