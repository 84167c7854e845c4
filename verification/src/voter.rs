//! Votes and their signatures.
//!
//! A vote is signed over its canonical text, a JSON object with the vote's
//! four fields in a fixed order. Keys and signatures are held as the bytes
//! that Ed25519 defines for them.

use vstd::prelude::*;
use vstd::utf8::encode_utf8;
use crate::decay::{calculate_weight, decayed_weight, DecayModel};
use crate::fixed::Fixed;
use crate::text::{decimal_string, decimal_text, digit_char, digit_str};
use crate::time::{elapsed_seconds_spec, rfc3339_text, Timestamp};

verus! {

/// The Ed25519 signature of `message` under the secret key `secret`.
pub uninterp spec fn ed25519_signature(secret: Seq<u8>, message: Seq<u8>) -> Seq<u8>;

/// The Ed25519 public key that belongs to the secret key `secret`.
pub uninterp spec fn ed25519_public_key(secret: Seq<u8>) -> Seq<u8>;

/// Whether Ed25519 verification accepts `signature` for `message` under
/// `public_key`. Bytes that are no public key accept nothing.
pub uninterp spec fn ed25519_accepts(public_key: Seq<u8>, message: Seq<u8>, signature: Seq<u8>) -> bool;

/// The JSON string literal, quotes included, that `serde_json` writes for
/// `text`.
pub uninterp spec fn json_string(text: Seq<char>) -> Seq<char>;

/// A vote as it was cast.
#[derive(Debug)]
pub struct Vote {
    pub voter_id: String,
    pub validator_id: String,
    pub vote_time: Timestamp,
    pub vote_weight: Fixed,
}

/// A vote with the signature of its canonical text and the public key that
/// the signature is to be checked with.
#[derive(Debug)]
pub struct SignedVote {
    pub vote: Vote,
    /// The 64 bytes of the Ed25519 signature.
    pub signature: [u8; 64],
    /// The 32 bytes of the signer's Ed25519 public key.
    pub public_key: [u8; 32],
}

/// The last `digits` decimal digits of `n`, with leading zeros.
pub open spec fn padded_text(n: nat, digits: nat) -> Seq<char>
    decreases digits,
{
    if digits == 0 {
        Seq::empty()
    } else {
        padded_text(n / 10, (digits - 1) as nat).push(digit_char((n % 10) as int))
    }
}

/// A fixed-point number written as a decimal fraction with nine places: a
/// minus sign where it is negative, the whole part, a point, the billionths.
pub open spec fn fixed_text(raw: int) -> Seq<char> {
    let size = if raw < 0 {
        -raw
    } else {
        raw
    };
    let sign = if raw < 0 {
        seq!['-']
    } else {
        Seq::empty()
    };
    sign + decimal_text((size / 1_000_000_000) as nat) + seq!['.'] + padded_text(
        (size % 1_000_000_000) as nat,
        9,
    )
}

/// A JSON object with the four fields of a vote, given the JSON string
/// literals of the two names and the text of the time.
pub open spec fn vote_object(
    voter: Seq<char>,
    validator: Seq<char>,
    time: Seq<char>,
    weight: int,
) -> Seq<char> {
    "{\"voter_id\":"@ + voter + ",\"validator_id\":"@ + validator + ",\"vote_time\":\""@ + time
        + "\",\"vote_weight\":"@ + fixed_text(weight) + "}"@
}

/// The canonical text of a vote.
pub open spec fn vote_text(vote: Vote) -> Seq<char> {
    vote_object(
        json_string(vote.voter_id@),
        json_string(vote.validator_id@),
        rfc3339_text(vote.vote_time.spec_secs(), vote.vote_time.spec_nanos()),
        vote.vote_weight as int,
    )
}

/// Writes the last `digits` decimal digits of `n`, with leading zeros.
pub fn padded_string(n: u64, digits: u8) -> (r: String)
    ensures
        r@ == padded_text(n as nat, digits as nat),
    decreases digits,
{
    if digits == 0 {
        String::new()
    } else {
        let mut text = padded_string(n / 10, digits - 1);
        text.append(digit_str((n % 10) as u8));
        text
    }
}

/// Writes a fixed-point number as a decimal fraction with nine places.
pub fn fixed_string(raw: Fixed) -> (r: String)
    ensures
        r@ == fixed_text(raw as int),
{
    proof {
        reveal_strlit("-");
        reveal_strlit(".");
    }
    let size: u64 = if raw < 0 {
        (-(raw as i128)) as u64
    } else {
        raw as u64
    };
    let mut text = String::new();
    if raw < 0 {
        text.append("-");
    }
    assert(text@ == if raw < 0 {
        seq!['-']
    } else {
        Seq::<char>::empty()
    });
    let whole = decimal_string(size / 1_000_000_000);
    text.append(whole.as_str());
    text.append(".");
    let fraction = padded_string(size % 1_000_000_000, 9);
    text.append(fraction.as_str());
    text
}

/// Writes a JSON object with the four fields of a vote, given the JSON
/// string literals of the two names and the text of the time.
pub fn write_vote_object(voter: &str, validator: &str, time: &str, weight: Fixed) -> (r: String)
    ensures
        r@ == vote_object(voter@, validator@, time@, weight as int),
{
    let mut text = String::from_str("{\"voter_id\":");
    text.append(voter);
    text.append(",\"validator_id\":");
    text.append(validator);
    text.append(",\"vote_time\":\"");
    text.append(time);
    text.append("\",\"vote_weight\":");
    let number = fixed_string(weight);
    text.append(number.as_str());
    text.append("}");
    text
}

impl Clone for Vote {
    fn clone(&self) -> (r: Vote)
        ensures
            r == *self,
    {
        Vote {
            voter_id: self.voter_id.clone(),
            validator_id: self.validator_id.clone(),
            vote_time: self.vote_time,
            vote_weight: self.vote_weight,
        }
    }
}

impl Clone for SignedVote {
    fn clone(&self) -> (r: SignedVote)
        ensures
            r == *self,
    {
        SignedVote {
            vote: self.vote.clone(),
            signature: self.signature,
            public_key: self.public_key,
        }
    }
}

impl Vote {
    /// The bytes that a signature of this vote is taken of.
    pub open spec fn bytes_spec(self) -> Seq<u8> {
        encode_utf8(vote_text(self))
    }

    /// The canonical text of the vote, as bytes.
    pub fn to_bytes(&self) -> (r: Vec<u8>)
        ensures
            r@ == self.bytes_spec(),
    {
        let voter = write_json_string(self.voter_id.as_str());
        let validator = write_json_string(self.validator_id.as_str());
        let time = self.vote_time.to_rfc3339();
        let text = write_vote_object(
            voter.as_str(),
            validator.as_str(),
            time.as_str(),
            self.vote_weight,
        );
        text.as_str().as_bytes_vec()
    }

    /// Signs the vote with the Ed25519 secret key `signing_key`.
    pub fn sign(&self, signing_key: &[u8; 32]) -> (r: SignedVote)
        ensures
            r.vote == *self,
            r.signature@ == ed25519_signature(signing_key@, self.bytes_spec()),
            r.public_key@ == ed25519_public_key(signing_key@),
    {
        let msg = self.to_bytes();
        let signature = ed25519_sign(signing_key, msg.as_slice());
        SignedVote { vote: self.clone(), signature, public_key: ed25519_public(signing_key) }
    }
}

impl SignedVote {
    /// Whether the signature is one that the public key accepts for the
    /// canonical text of the vote.
    pub fn verify(&self) -> (r: bool)
        ensures
            r == ed25519_accepts(self.public_key@, self.vote.bytes_spec(), self.signature@),
    {
        let msg = self.vote.to_bytes();
        ed25519_verify(&self.public_key, msg.as_slice(), &self.signature)
    }

    /// The weight that is left of the vote at `current_time`, counted from
    /// the time the vote was cast.
    pub fn compute_weight(&self, current_time: Timestamp, decay_model: DecayModel) -> (r: Fixed)
        ensures
            r == decayed_weight(
                self.vote.vote_weight as int,
                elapsed_seconds_spec(self.vote.vote_time, current_time),
                decay_model,
            ),
    {
        calculate_weight(self.vote.vote_weight, self.vote.vote_time, current_time, decay_model)
    }
}

/// Signs `message` with `ed25519_dalek`: `SigningKey::from_bytes`, then
/// `Signer::sign`, then `Signature::to_bytes`.
///
/// Ed25519 signatures are deterministic; the contract gives the signature
/// the name [`ed25519_signature`].
#[verifier::external_body]
fn ed25519_sign(secret: &[u8; 32], message: &[u8]) -> (r: [u8; 64])
    ensures
        r@ == ed25519_signature(secret@, message@),
{
    let key = ed25519_dalek::SigningKey::from_bytes(secret);
    ed25519_dalek::Signer::sign(&key, message).to_bytes()
}

/// Derives the public key with `ed25519_dalek`: `SigningKey::from_bytes`,
/// then `SigningKey::verifying_key`, then `VerifyingKey::to_bytes`.
///
/// The contract gives the key the name [`ed25519_public_key`].
#[verifier::external_body]
fn ed25519_public(secret: &[u8; 32]) -> (r: [u8; 32])
    ensures
        r@ == ed25519_public_key(secret@),
{
    ed25519_dalek::SigningKey::from_bytes(secret).verifying_key().to_bytes()
}

/// Checks a signature with `ed25519_dalek`: `VerifyingKey::from_bytes`, then
/// `Verifier::verify` on the signature built by `Signature::from_bytes`.
///
/// The outcome depends on the three byte strings alone; the contract gives
/// it the name [`ed25519_accepts`]. Bytes that `from_bytes` refuses as a
/// public key give `false`.
#[verifier::external_body]
fn ed25519_verify(public_key: &[u8; 32], message: &[u8], signature: &[u8; 64]) -> (r: bool)
    ensures
        r == ed25519_accepts(public_key@, message@, signature@),
{
    match ed25519_dalek::VerifyingKey::from_bytes(public_key) {
        Ok(key) => ed25519_dalek::Verifier::verify(
            &key,
            message,
            &ed25519_dalek::Signature::from_bytes(signature),
        ).is_ok(),
        Err(_) => false,
    }
}

/// Writes `text` as a JSON string literal with `serde_json::to_string`.
///
/// The literal depends on the text alone; the contract gives it the name
/// [`json_string`]. `to_string` does not fail on a string.
#[verifier::external_body]
fn write_json_string(text: &str) -> (r: String)
    ensures
        r@ == json_string(text@),
{
    match serde_json::to_string(text) {
        Ok(literal) => literal,
        Err(_) => String::new(),
    }
}

} // verus!
