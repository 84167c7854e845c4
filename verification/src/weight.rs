//! Effective weights of votes: decayed by time, raised by reputation, and
//! kept in a ledger that remembers the last weight of every voter and the
//! whole history of weights.

use vstd::prelude::*;
use vstd::hash_map::StringHashMap;
use crate::decay::{calculate_weight, decayed_weight, DecayModel};
use crate::fixed::{mul_scaled, saturated, scaled, Fixed, SCALE};
use crate::time::{elapsed_seconds_spec, Timestamp};

verus! {

/// A vote as the weighting step sees it.
#[derive(Debug)]
pub struct WeightedVote {
    pub voter_id: String,
    pub vote_time: Timestamp,
    pub orig_weight: Fixed,
    pub decay_model: DecayModel,
    pub reputation_bonus: Fixed,
}

/// The ledger of weights.
pub struct WeightEngine {
    /// The last effective weight computed for each voter.
    pub cache: StringHashMap<Fixed>,
    /// Every weight computed, in the order of computing.
    pub history: Vec<(String, Fixed, Timestamp)>,
    /// The reputation bonus set for each voter.
    pub reputation: StringHashMap<Fixed>,
}

/// `weight` raised by a reputation bonus: `weight * (1 + bonus)`, rounded
/// down and kept to the range of [`Fixed`].
pub open spec fn boosted(weight: int, bonus: int) -> int {
    saturated(scaled(weight * (SCALE + bonus)))
}

/// The weights that a batch of votes yields, by voter; where a voter has
/// several votes in the batch, the last one counts.
pub open spec fn batch_weights(votes: Seq<WeightedVote>, vote_start: Timestamp, now: Timestamp) -> Map<
    Seq<char>,
    Fixed,
>
    decreases votes.len(),
{
    if votes.len() == 0 {
        Map::empty()
    } else {
        batch_weights(votes.drop_last(), vote_start, now).insert(
            votes.last().voter_id@,
            votes.last().effective_weight_spec(vote_start, now) as Fixed,
        )
    }
}

/// The history entries that a batch of votes yields, one for each vote, in
/// the order of the votes.
pub open spec fn batch_history(votes: Seq<WeightedVote>, vote_start: Timestamp, now: Timestamp) -> Seq<
    (String, Fixed, Timestamp),
> {
    Seq::new(
        votes.len(),
        |i: int| (votes[i].voter_id, votes[i].effective_weight_spec(vote_start, now) as Fixed, now),
    )
}

impl Clone for WeightedVote {
    fn clone(&self) -> (r: WeightedVote)
        ensures
            r == *self,
    {
        WeightedVote {
            voter_id: self.voter_id.clone(),
            vote_time: self.vote_time,
            orig_weight: self.orig_weight,
            decay_model: self.decay_model,
            reputation_bonus: self.reputation_bonus,
        }
    }
}

impl WeightedVote {
    /// The weight of the vote at `now`, where voting opened at `vote_start`:
    /// the decayed weight raised by the reputation bonus.
    pub open spec fn effective_weight_spec(self, vote_start: Timestamp, now: Timestamp) -> int {
        boosted(
            decayed_weight(
                self.orig_weight as int,
                elapsed_seconds_spec(vote_start, now),
                self.decay_model,
            ),
            self.reputation_bonus as int,
        )
    }

    /// The weight of the vote at `now`, where voting opened at `vote_start`.
    pub fn effective_weight(&self, vote_start: Timestamp, now: Timestamp) -> (r: Fixed)
        ensures
            r == self.effective_weight_spec(vote_start, now),
    {
        let decayed = calculate_weight(self.orig_weight, vote_start, now, self.decay_model);
        mul_scaled(decayed, SCALE as i128 + self.reputation_bonus as i128)
    }
}

impl WeightEngine {
    /// A ledger with nothing in it.
    pub fn new() -> (r: WeightEngine)
        ensures
            r.cache@ == Map::<Seq<char>, Fixed>::empty(),
            r.history@ == Seq::<(String, Fixed, Timestamp)>::empty(),
            r.reputation@ == Map::<Seq<char>, Fixed>::empty(),
    {
        WeightEngine {
            cache: StringHashMap::new(),
            history: Vec::new(),
            reputation: StringHashMap::new(),
        }
    }

    /// Computes the effective weight of `vote` and records it: the cache
    /// entry of the voter is overwritten, the history grows by one entry.
    pub fn calculate_and_cache(&mut self, vote: &WeightedVote, vote_start: &Timestamp, now: Timestamp) -> (r:
        Fixed)
        ensures
            r == vote.effective_weight_spec(*vote_start, now),
            final(self).cache@ == old(self).cache@.insert(vote.voter_id@, r),
            final(self).history@ == old(self).history@.push((vote.voter_id, r, now)),
            final(self).reputation@ == old(self).reputation@,
    {
        let weight = vote.effective_weight(*vote_start, now);
        self.cache.insert(vote.voter_id.clone(), weight);
        self.history.push((vote.voter_id.clone(), weight, now));
        weight
    }

    /// Computes and records the effective weight of every vote in turn, and
    /// returns the weights of this batch by voter.
    ///
    /// The cache and the history take up every vote of the batch.
    pub fn batch_updates(&mut self, vote: &[WeightedVote], vote_start: &Timestamp, now: Timestamp) -> (results:
        StringHashMap<Fixed>)
        ensures
            results@ == batch_weights(vote@, *vote_start, now),
            final(self).cache@ == old(self).cache@.union_prefer_right(
                batch_weights(vote@, *vote_start, now),
            ),
            final(self).history@ == old(self).history@ + batch_history(vote@, *vote_start, now),
            final(self).reputation@ == old(self).reputation@,
    {
        let mut results: StringHashMap<Fixed> = StringHashMap::new();
        let mut i: usize = 0;
        proof {
            assert(old(self).cache@.union_prefer_right(Map::<Seq<char>, Fixed>::empty())
                == old(self).cache@);
            assert(old(self).history@ + batch_history(vote@.take(0), *vote_start, now) == old(self).history@);
        }
        while i < vote.len()
            invariant
                i <= vote.len(),
                results@ == batch_weights(vote@.take(i as int), *vote_start, now),
                self.cache@ == old(self).cache@.union_prefer_right(
                    batch_weights(vote@.take(i as int), *vote_start, now),
                ),
                self.history@ == old(self).history@ + batch_history(
                    vote@.take(i as int),
                    *vote_start,
                    now,
                ),
                self.reputation@ == old(self).reputation@,
            decreases vote.len() - i,
        {
            let ghost before = vote@.take(i as int);
            let ghost longer = vote@.take(i + 1);
            let weight = self.calculate_and_cache(&vote[i], vote_start, now);
            results.insert(vote[i].voter_id.clone(), weight);
            proof {
                assert(longer.drop_last() == before);
                assert(longer.last() == vote@[i as int]);
                assert(self.cache@ == old(self).cache@.union_prefer_right(
                    batch_weights(longer, *vote_start, now),
                ));
                assert(batch_history(longer, *vote_start, now) == batch_history(
                    before,
                    *vote_start,
                    now,
                ).push((vote@[i as int].voter_id, weight, now)));
            }
            i = i + 1;
        }
        proof {
            assert(vote@.take(vote.len() as int) == vote@);
        }
        results
    }

    /// Sets the reputation bonus of a voter.
    pub fn set_reputation(&mut self, voter_id: &String, bonus: Fixed)
        ensures
            final(self).reputation@ == old(self).reputation@.insert(voter_id@, bonus),
            final(self).cache@ == old(self).cache@,
            final(self).history@ == old(self).history@,
    {
        self.reputation.insert(voter_id.clone(), bonus);
    }

    /// The reputation bonus of a voter; zero where none was set.
    pub fn reputation_bonus(&self, voter_id: &str) -> (r: Fixed)
        ensures
            r == if self.reputation@.contains_key(voter_id@) {
                self.reputation@[voter_id@]
            } else {
                0
            },
    {
        match self.reputation.get(voter_id) {
            Some(bonus) => *bonus,
            None => 0,
        }
    }

    /// The last effective weight computed for a voter, if any was.
    pub fn get_cached_weight(&self, voter_id: &str) -> (r: Option<Fixed>)
        ensures
            r == if self.cache@.contains_key(voter_id@) {
                Some(self.cache@[voter_id@])
            } else {
                None
            },
    {
        match self.cache.get(voter_id) {
            Some(weight) => Some(*weight),
            None => None,
        }
    }

    /// Every weight computed so far, in the order of computing.
    pub fn get_history(&self) -> (r: &Vec<(String, Fixed, Timestamp)>)
        ensures
            r@ == self.history@,
    {
        &self.history
    }
}

impl Default for WeightEngine {
    fn default() -> (r: WeightEngine)
        ensures
            r.cache@ == Map::<Seq<char>, Fixed>::empty(),
            r.history@ == Seq::<(String, Fixed, Timestamp)>::empty(),
            r.reputation@ == Map::<Seq<char>, Fixed>::empty(),
    {
        WeightEngine::new()
    }
}

/// Recording a second weight for a voter overwrites the first in the cache
/// and leaves the history entry of the first in place: the cache holds the
/// second weight alone, the history has grown by both entries and has kept
/// all it had.
pub proof fn lemma_last_write_wins(
    cache: Map<Seq<char>, Fixed>,
    history: Seq<(String, Fixed, Timestamp)>,
    voter: String,
    first: Fixed,
    first_time: Timestamp,
    second: Fixed,
    second_time: Timestamp,
)
    ensures
        cache.insert(voter@, first).insert(voter@, second) == cache.insert(voter@, second),
        cache.insert(voter@, first).insert(voter@, second)[voter@] == second,
        history.push((voter, first, first_time)).push((voter, second, second_time)).len()
            == history.len() + 2,
        history.push((voter, first, first_time)).push((voter, second, second_time)).take(
            history.len() as int,
        ) == history,
        history.push((voter, first, first_time)).push((voter, second, second_time))[history.len() as int]
            == (voter, first, first_time),
        history.push((voter, first, first_time)).push((voter, second, second_time))[history.len()
            as int + 1] == (voter, second, second_time),
{
}

} // verus!
