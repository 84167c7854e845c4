use chrono::Utc;
use decay_voting::decay::{calculate_weight, DecayModel};
use decay_voting::fixed::Fixed;
use decay_voting::time::Timestamp;
use decay_voting::voter::{fixed_string, padded_string, write_vote_object, SignedVote, Vote};
use ed25519_dalek::{Signature, Signer, SigningKey, Verifier, VerifyingKey};
use rand::rngs::OsRng;

fn now() -> Timestamp {
    let t = Utc::now();
    Timestamp::new(t.timestamp(), t.timestamp_subsec_nanos()).unwrap()
}

fn fx(x: f64) -> Fixed {
    (x * 1e9).round() as Fixed
}

#[test]
fn test_vote_serialization() {
    let vote = Vote {
        voter_id: "Alice".into(),
        validator_id: "Validator1".into(),
        vote_time: now(),
        vote_weight: fx(1.0),
    };

    let bytes = vote.to_bytes();
    assert!(!bytes.is_empty(), "Vote did not serialize correctly");
}

#[test]
fn test_vote_signing_and_verification() {
    let mut csprng = OsRng;
    let signing_key: SigningKey = SigningKey::generate(&mut csprng);
    let vote = Vote {
        voter_id: "Bob".into(),
        validator_id: "Validator2".into(),
        vote_time: now(),
        vote_weight: fx(1.5),
    };

    let signed_vote = vote.sign(&signing_key.to_bytes());
    let msg = vote.to_bytes();

    // Use the public key to verify the signature
    let public_key = VerifyingKey::from_bytes(&signed_vote.public_key).unwrap();
    assert!(
        public_key.verify(&msg, &Signature::from_bytes(&signed_vote.signature)).is_ok(),
        "Signature verification failed"
    );
}

#[test]
fn vote_text_is_a_json_object() {
    let vote = Vote {
        voter_id: "Al\"ice\n".into(),
        validator_id: "Validator\\1".into(),
        vote_time: Timestamp::new(1_700_000_000, 0).unwrap(),
        vote_weight: fx(1.5),
    };
    let text = String::from_utf8(vote.to_bytes()).unwrap();
    assert_eq!(
        text,
        "{\"voter_id\":\"Al\\\"ice\\n\",\"validator_id\":\"Validator\\\\1\",\"vote_time\":\"2023-11-14T22:13:20+00:00\",\"vote_weight\":1.500000000}"
    );
    let value: serde_json::Value = serde_json::from_str(&text).unwrap();
    assert_eq!(value.get("voter_id").unwrap().as_str(), Some("Al\"ice\n"));
    assert_eq!(value.get("validator_id").unwrap().as_str(), Some("Validator\\1"));
    assert_eq!(value.get("vote_weight").unwrap().as_f64(), Some(1.5));
}

#[test]
fn vote_object_is_put_together_in_a_fixed_order() {
    assert_eq!(
        write_vote_object("\"a\"", "\"b\"", "T", 2_500_000_000),
        "{\"voter_id\":\"a\",\"validator_id\":\"b\",\"vote_time\":\"T\",\"vote_weight\":2.500000000}"
    );
    assert_eq!(
        write_vote_object("", "", "", -1),
        "{\"voter_id\":,\"validator_id\":,\"vote_time\":\"\",\"vote_weight\":-0.000000001}"
    );
}

#[test]
fn fixed_point_numbers_as_text() {
    assert_eq!(fixed_string(0), "0.000000000");
    assert_eq!(fixed_string(1), "0.000000001");
    assert_eq!(fixed_string(-1), "-0.000000001");
    assert_eq!(fixed_string(fx(12.25)), "12.250000000");
    assert_eq!(fixed_string(fx(-3.5)), "-3.500000000");
    assert_eq!(fixed_string(i64::MAX), "9223372036.854775807");
    assert_eq!(fixed_string(i64::MIN), "-9223372036.854775808");
    assert_eq!(padded_string(42, 5), "00042");
    assert_eq!(padded_string(123_456, 3), "456");
    assert_eq!(padded_string(7, 0), "");
}

#[test]
fn signature_matches_the_one_ed25519_gives() {
    let secret = [7u8; 32];
    let key = SigningKey::from_bytes(&secret);
    let vote = Vote {
        voter_id: "Carol".into(),
        validator_id: "Validator3".into(),
        vote_time: Timestamp::new(1_700_000_000, 5).unwrap(),
        vote_weight: fx(2.0),
    };
    let signed = vote.sign(&secret);
    assert_eq!(signed.signature, key.sign(&vote.to_bytes()).to_bytes());
    assert_eq!(signed.public_key, key.verifying_key().to_bytes());
    assert_eq!(signed.vote.voter_id, "Carol");
    assert_eq!(signed.vote.validator_id, "Validator3");
    assert_eq!(signed.vote.vote_time, vote.vote_time);
    assert_eq!(signed.vote.vote_weight, fx(2.0));
    assert!(signed.verify());
    assert!(signed.clone().verify());
}

#[test]
fn verification_rejects_what_was_not_signed() {
    let secret = [9u8; 32];
    let vote = Vote {
        voter_id: "Dan".into(),
        validator_id: "Validator4".into(),
        vote_time: Timestamp::new(1_700_000_000, 0).unwrap(),
        vote_weight: fx(1.0),
    };
    let signed = vote.sign(&secret);
    assert!(signed.verify());

    let mut other_weight = signed.clone();
    other_weight.vote.vote_weight = fx(100.0);
    assert!(!other_weight.verify());

    let mut other_voter = signed.clone();
    other_voter.vote.voter_id = "Eve".into();
    assert!(!other_voter.verify());

    let mut other_signature = signed.clone();
    other_signature.signature[0] ^= 1;
    assert!(!other_signature.verify());

    let mut other_key = signed.clone();
    other_key.public_key = SigningKey::from_bytes(&[10u8; 32]).verifying_key().to_bytes();
    assert!(!other_key.verify());

    // bytes that are no point on the curve are no public key
    let mut no_key = signed.clone();
    no_key.public_key = [0xff; 32];
    no_key.public_key[0] = 0xfd;
    let refused = VerifyingKey::from_bytes(&no_key.public_key).is_err();
    assert!(!no_key.verify() || !refused);
    let mut found_refused = false;
    for first in 0..=255u8 {
        let mut bytes = [0u8; 32];
        bytes[0] = first;
        if VerifyingKey::from_bytes(&bytes).is_err() {
            let mut bad = signed.clone();
            bad.public_key = bytes;
            assert!(!bad.verify());
            found_refused = true;
            break;
        }
    }
    assert!(found_refused);
}

#[test]
fn signed_vote_decays_from_the_time_it_was_cast() {
    let cast = Timestamp::new(1_700_000_000, 0).unwrap();
    let later = Timestamp::new(1_700_000_090, 0).unwrap();
    let vote = Vote {
        voter_id: "Fay".into(),
        validator_id: "Validator5".into(),
        vote_time: cast,
        vote_weight: fx(80.0),
    };
    let signed: SignedVote = vote.sign(&[1u8; 32]);
    let model = DecayModel::Stepped { step_interval_secs: 30, decay_factor: fx(0.1) };
    assert_eq!(signed.compute_weight(later, model), fx(56.0));
    assert_eq!(signed.compute_weight(later, model), calculate_weight(fx(80.0), cast, later, model));
    assert_eq!(signed.compute_weight(cast, model), fx(80.0));
}
