//! Tally policy: what a proposal of a given kind needs in order to pass, and
//! named profiles for how fast the required fraction grows.
//!
//! The profiles here are a strategy of their own, apart from the models of
//! the `threshold` module; a caller picks one or the other.

use vstd::prelude::*;
use crate::fixed::{Fixed, SCALE};
use crate::threshold::{MAX_THRESHOLD, MIN_THRESHOLD};
use crate::time::Timestamp;

verus! {

/// How fast the required fraction grows.
#[derive(Clone, Copy, Debug, PartialEq, Eq, Structural)]
pub enum ProgressionProfile {
    /// A hundredth every five minutes, from 0.51.
    Conservative,
    /// Two hundredths every minute, from 0.51.
    Aggresive,
    /// Pinned to 0.70 while participation is low, else a hundredth every two
    /// minutes, from 0.55.
    Adaptive,
}

/// What a proposal needs in order to pass: a fraction of yes-votes and a
/// number of yes-votes, both at once.
#[derive(Clone, Copy, Debug, PartialEq, Eq, Structural)]
pub struct ThresholdRequirement {
    /// The least fraction of the votes that must be yes-votes.
    pub min_percentage: Fixed,
    /// The least number of yes-votes.
    pub max_abs: usize,
}

/// The kind of a proposal.
#[derive(Clone, Copy, Debug, PartialEq, Eq, Structural)]
pub enum Proposaltype {
    Normal,
    Critical,
    Emergency,
}

/// The outcome of an earlier proposal.
#[derive(Debug)]
pub struct ProposalHistory {
    pub vote_time: Timestamp,
    pub total_vote: usize,
    pub yes_votes: usize,
    pub threshold_passed: bool,
}

/// Participation below which the adaptive profile pins the threshold: 0.30.
pub const LOW_PARTICIPATION: Fixed = 300_000_000;

/// Average number of votes below which the aggressive profile is
/// recommended.
pub const LOW_TURNOUT: usize = 5;

/// Whether `yes_votes` out of `total_vote` meet a requirement of
/// `min_percentage` billionths and `max_abs` yes-votes. No votes at all
/// meet nothing.
pub open spec fn meets(min_percentage: int, max_abs: int, yes_votes: int, total_vote: int) -> bool {
    &&& total_vote > 0
    &&& yes_votes * SCALE >= min_percentage * total_vote
    &&& yes_votes >= max_abs
}

/// The fraction that `profile` requires after `elapsed_time` seconds with
/// the given participation: a base plus a rate for every period, and never
/// more than [`MAX_THRESHOLD`].
pub open spec fn profile_threshold(
    profile: ProgressionProfile,
    elapsed_time: int,
    participation: int,
) -> int {
    let grown = match profile {
        ProgressionProfile::Conservative => 510_000_000 + (10_000_000 * elapsed_time) / 300,
        ProgressionProfile::Aggresive => 510_000_000 + (20_000_000 * elapsed_time) / 60,
        ProgressionProfile::Adaptive => if participation < LOW_PARTICIPATION {
            700_000_000
        } else {
            550_000_000 + (10_000_000 * elapsed_time) / 120
        },
    };
    if grown > MAX_THRESHOLD {
        MAX_THRESHOLD as int
    } else {
        grown
    }
}

/// The base threshold on the schedule of the day, by the hour.
pub open spec fn scheduled_threshold(hour: int) -> int {
    if hour <= 6 {
        700_000_000
    } else if hour <= 18 {
        550_000_000
    } else {
        600_000_000
    }
}

/// What a proposal of kind `p` needs in order to pass.
pub open spec fn requirement_of(p: Proposaltype) -> ThresholdRequirement {
    match p {
        Proposaltype::Normal => ThresholdRequirement { min_percentage: 510_000_000, max_abs: 5 },
        Proposaltype::Critical => ThresholdRequirement { min_percentage: 800_000_000, max_abs: 15 },
        Proposaltype::Emergency => ThresholdRequirement { min_percentage: 900_000_000, max_abs: 0 },
    }
}

/// The votes cast on all the proposals in `history` together.
pub open spec fn total_votes(history: Seq<ProposalHistory>) -> int
    decreases history.len(),
{
    if history.len() == 0 {
        0
    } else {
        total_votes(history.drop_last()) + history.last().total_vote
    }
}

/// The profile recommended after `history`: aggressive where proposals drew
/// fewer than [`LOW_TURNOUT`] votes on average, else conservative, and
/// conservative where there is no history.
pub open spec fn recommended_profile(history: Seq<ProposalHistory>) -> ProgressionProfile {
    if history.len() > 0 && total_votes(history) < LOW_TURNOUT * history.len() {
        ProgressionProfile::Aggresive
    } else {
        ProgressionProfile::Conservative
    }
}

impl ThresholdRequirement {
    /// Whether `yes_votes` out of `total_vote` meet this requirement.
    pub open spec fn met_by(self, yes_votes: int, total_vote: int) -> bool {
        meets(self.min_percentage as int, self.max_abs as int, yes_votes, total_vote)
    }

    /// Whether `yes_votes` out of `total_vote` meet this requirement: the
    /// fraction of yes-votes is at least `min_percentage` and their number
    /// at least `max_abs`. An empty vote never passes.
    pub fn is_met(&self, yes_votes: usize, total_vote: usize) -> (r: bool)
        ensures
            r == self.met_by(yes_votes as int, total_vote as int),
            total_vote == 0 ==> !r,
    {
        if total_vote == 0 {
            return false;
        }
        proof {
            lemma_share_product_fits(self.min_percentage as int, total_vote as int);
        }
        let cast: i128 = (yes_votes as i128) * 1_000_000_000;
        let needed: i128 = (self.min_percentage as i128) * (total_vote as i128);
        cast >= needed && yes_votes >= self.max_abs
    }
}

/// The fraction that `profile` requires after `elapsed_time` seconds, given
/// the share of voters that have taken part.
pub fn threshold_at(profile: &ProgressionProfile, elapsed_time: u64, participation: Fixed) -> (r:
    Fixed)
    ensures
        r == profile_threshold(*profile, elapsed_time as int, participation as int),
        MIN_THRESHOLD <= r <= MAX_THRESHOLD,
{
    let elapsed: u128 = elapsed_time as u128;
    let grown: u128 = match profile {
        ProgressionProfile::Conservative => 510_000_000 + (10_000_000 * elapsed) / 300,
        ProgressionProfile::Aggresive => 510_000_000 + (20_000_000 * elapsed) / 60,
        ProgressionProfile::Adaptive => {
            if participation < LOW_PARTICIPATION {
                700_000_000
            } else {
                550_000_000 + (10_000_000 * elapsed) / 120
            }
        },
    };
    if grown > MAX_THRESHOLD as u128 {
        MAX_THRESHOLD
    } else {
        grown as i64
    }
}

/// The base threshold at hour `now` of the day: 0.70 at night, 0.55 by day,
/// 0.60 in the evening.
pub fn scheduled_base_threshold(now: u32) -> (r: Fixed)
    ensures
        r == scheduled_threshold(now as int),
{
    if now <= 6 {
        700_000_000
    } else if now <= 18 {
        550_000_000
    } else {
        600_000_000
    }
}

/// What a proposal of kind `p` needs in order to pass.
pub fn requirement_for_type(p: Proposaltype) -> (r: ThresholdRequirement)
    ensures
        r == requirement_of(p),
{
    match p {
        Proposaltype::Normal => ThresholdRequirement { min_percentage: 510_000_000, max_abs: 5 },
        Proposaltype::Critical => ThresholdRequirement { min_percentage: 800_000_000, max_abs: 15 },
        Proposaltype::Emergency => ThresholdRequirement { min_percentage: 900_000_000, max_abs: 0 },
    }
}

/// The profile to use next, judged by how many votes earlier proposals drew.
pub fn recommend_profile(history: &[ProposalHistory]) -> (r: ProgressionProfile)
    ensures
        r == recommended_profile(history@),
{
    if history.len() == 0 {
        return ProgressionProfile::Conservative;
    }
    let mut sum: u128 = 0;
    let mut i: usize = 0;
    while i < history.len()
        invariant
            i <= history.len(),
            sum == total_votes(history@.take(i as int)),
            sum <= i * usize::MAX,
        decreases history.len() - i,
    {
        proof {
            let longer = history@.take(i + 1);
            assert(longer.drop_last() == history@.take(i as int));
            assert(longer.last() == history@[i as int]);
            assert((i + 1) * usize::MAX == i * usize::MAX + usize::MAX) by (nonlinear_arith);
            lemma_count_product_fits(i + 1);
        }
        sum = sum + history[i].total_vote as u128;
        i = i + 1;
    }
    proof {
        assert(history@.take(history.len() as int) == history@);
    }
    if sum < (LOW_TURNOUT as u128) * (history.len() as u128) {
        ProgressionProfile::Aggresive
    } else {
        ProgressionProfile::Conservative
    }
}

/// No votes at all meet no requirement.
pub proof fn lemma_empty_vote_fails(requirement: ThresholdRequirement, yes_votes: int)
    ensures
        !requirement.met_by(yes_votes, 0),
{
}

/// A requirement is met only where both of its conditions hold: the
/// fraction alone, or the number alone, is not enough.
pub proof fn lemma_both_conditions(
    requirement: ThresholdRequirement,
    yes_votes: int,
    total_vote: int,
)
    ensures
        yes_votes < requirement.max_abs ==> !requirement.met_by(yes_votes, total_vote),
        yes_votes * SCALE < requirement.min_percentage * total_vote ==> !requirement.met_by(
            yes_votes,
            total_vote,
        ),
{
}

/// A fraction in billionths times a count of votes fits in `i128`.
proof fn lemma_share_product_fits(share: int, count: int)
    requires
        i64::MIN <= share <= i64::MAX,
        0 <= count <= u64::MAX,
    ensures
        -(i128::MAX as int) <= share * count <= i128::MAX,
{
    assert(-(i128::MAX as int) <= share * count <= i128::MAX) by (nonlinear_arith)
        requires
            -0x8000_0000_0000_0000 <= share <= 0x7fff_ffff_ffff_ffff,
            0 <= count <= 0xffff_ffff_ffff_ffff,
    ;
}

/// As many counts as a slice can hold add up to less than `u128` can hold.
proof fn lemma_count_product_fits(n: int)
    requires
        0 <= n <= usize::MAX,
    ensures
        n * usize::MAX <= u128::MAX,
{
    assert(n * usize::MAX <= u128::MAX) by (nonlinear_arith)
        requires
            0 <= n <= usize::MAX,
            usize::MAX <= 0xffff_ffff_ffff_ffff,
    ;
}

} // verus!
