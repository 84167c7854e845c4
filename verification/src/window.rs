//! Voting sessions: when a proposal's voting opened, how long it stays open,
//! and which proposals are still open.

use vstd::prelude::*;
use crate::time::{duration_in_range, nanos_in_range, Duration, Timestamp};

verus! {

/// How long voting stays open.
#[derive(Clone, Copy, Debug, PartialEq, Eq, Structural)]
pub enum VotingWindow {
    /// Five minutes.
    Short,
    /// Thirty minutes.
    Medium,
    /// Two hours.
    Long,
    /// As long as given.
    Custom(Duration),
}

/// The voting on one proposal.
#[derive(Debug)]
pub struct VotingSession {
    pub vote_start: Timestamp,
    pub voter_id: String,
    pub voting_window: VotingWindow,
    pub extended: bool,
}

/// Sessions by proposal, in the order in which the proposals were first
/// added. No proposal occurs twice.
pub struct ProposalTable {
    entries: Vec<(String, VotingSession)>,
}

/// The open and recently closed proposals.
pub struct ProposalManager {
    pub proposals: ProposalTable,
    /// For how long after its end a session still counts as active.
    pub grace_period: Duration,
}

/// Whether no proposal occurs twice in `entries`.
pub open spec fn keys_distinct(entries: Seq<(String, VotingSession)>) -> bool {
    forall|i: int, j: int| 0 <= i < j < entries.len() ==> entries[i].0@ != entries[j].0@
}

/// Whether `entries` holds a session for the proposal `key`.
pub open spec fn has_key(entries: Seq<(String, VotingSession)>, key: Seq<char>) -> bool {
    exists|i: int| 0 <= i < entries.len() && entries[i].0@ == key
}

/// The entries whose sessions have not ended before `deadline` nanoseconds
/// since the epoch, in their order.
pub open spec fn active_entries(entries: Seq<(String, VotingSession)>, deadline: int) -> Seq<
    (String, VotingSession),
>
    decreases entries.len(),
{
    if entries.len() == 0 {
        entries
    } else if entries.last().1.expired_at(deadline) {
        active_entries(entries.drop_last(), deadline)
    } else {
        active_entries(entries.drop_last(), deadline).push(entries.last())
    }
}

impl VotingWindow {
    /// The length of the window in nanoseconds.
    pub open spec fn spec_nanos(self) -> int {
        match self {
            VotingWindow::Short => 300_000_000_000,
            VotingWindow::Medium => 1_800_000_000_000,
            VotingWindow::Long => 7_200_000_000_000,
            VotingWindow::Custom(span) => span.spec_nanos(),
        }
    }

    /// The length of the window.
    pub fn duration(&self) -> (r: Duration)
        ensures
            r.spec_nanos() == self.spec_nanos(),
            r.wf(),
    {
        match self {
            VotingWindow::Short => Duration::minutes(5),
            VotingWindow::Medium => Duration::minutes(30),
            VotingWindow::Long => Duration::hours(2),
            VotingWindow::Custom(span) => {
                let _ = span.total_nanos();
                *span
            },
        }
    }
}

impl VotingSession {
    /// When voting ends, in nanoseconds since the epoch.
    pub open spec fn end_nanos(self) -> int {
        self.vote_start.total_nanos() + self.voting_window.spec_nanos()
    }

    /// Whether voting has ended before the instant `nanos` nanoseconds
    /// after the epoch.
    pub open spec fn expired_at(self, nanos: int) -> bool {
        nanos > self.end_nanos()
    }

    /// When voting ends.
    pub fn end_time(&self) -> (r: Timestamp)
        requires
            nanos_in_range(self.end_nanos()),
        ensures
            r.total_nanos() == self.end_nanos(),
            r.wf(),
    {
        let span = self.voting_window.duration();
        match self.vote_start.checked_add(&span) {
            Some(end) => end,
            None => self.vote_start,
        }
    }

    /// Whether voting has ended before `now`.
    pub fn has_expired(&self, now: Timestamp) -> (r: bool)
        ensures
            r == self.expired_at(now.total_nanos()),
    {
        self.expired_by(now.nanos_since_epoch())
    }

    /// Whether voting has ended before the instant `nanos` nanoseconds
    /// after the epoch.
    pub fn expired_by(&self, nanos: i128) -> (r: bool)
        ensures
            r == self.expired_at(nanos as int),
    {
        let span = self.voting_window.duration();
        nanos > self.vote_start.nanos_since_epoch() + span.total_nanos()
    }

    /// How long voting stays open after `now`; no time where it has ended.
    pub fn remaining_time(&self, now: Timestamp) -> (r: Duration)
        requires
            nanos_in_range(self.end_nanos()),
        ensures
            r.spec_nanos() == if now.total_nanos() >= self.end_nanos() {
                0
            } else {
                self.end_nanos() - now.total_nanos()
            },
            r.wf(),
    {
        let end = self.end_time();
        if !end.is_after(&now) {
            Duration::zero()
        } else {
            end.duration_since(&now)
        }
    }

    /// Lengthens the window by `extension`, once: a session that was
    /// extended before stays as it is.
    pub fn extend_if_possible(&mut self, extension: Duration)
        requires
            !old(self).extended ==> duration_in_range(
                old(self).voting_window.spec_nanos() + extension.spec_nanos(),
            ),
        ensures
            old(self).extended ==> *final(self) == *old(self),
            !old(self).extended ==> final(self).voting_window.spec_nanos() == old(self).voting_window.spec_nanos() + extension.spec_nanos(),
            !old(self).extended ==> final(self).voting_window is Custom,
            final(self).extended,
            final(self).vote_start == old(self).vote_start,
            final(self).voter_id == old(self).voter_id,
    {
        if !self.extended {
            let current_duration = self.voting_window.duration();
            if let Some(longer) = current_duration.checked_add(&extension) {
                self.voting_window = VotingWindow::Custom(longer);
                self.extended = true;
            }
        }
    }
}

impl ProposalTable {
    #[verifier::type_invariant]
    spec fn distinct(self) -> bool {
        keys_distinct(self.entries@)
    }

    /// The proposals and their sessions, in the order in which the
    /// proposals were first added.
    pub closed spec fn entries(self) -> Seq<(String, VotingSession)> {
        self.entries@
    }

    /// Whether the table is one that an executable table can be: no
    /// proposal occurs twice.
    pub open spec fn wf(self) -> bool {
        keys_distinct(self.entries())
    }

    /// A table with no proposal in it.
    pub fn new() -> (r: ProposalTable)
        ensures
            r.entries() == Seq::<(String, VotingSession)>::empty(),
            r.wf(),
    {
        ProposalTable { entries: Vec::new() }
    }

    /// The number of proposals.
    pub fn len(&self) -> (r: usize)
        ensures
            r == self.entries().len(),
    {
        self.entries.len()
    }

    /// The place of the proposal `key` in the table, if it is there.
    fn position(&self, key: &str) -> (r: Option<usize>)
        ensures
            self.wf(),
            match r {
                Some(i) => i < self.entries().len() && self.entries()[i as int].0@ == key@,
                None => !has_key(self.entries(), key@),
            },
    {
        proof {
            use_type_invariant(self);
        }
        let wanted = String::from_str(key);
        let mut i: usize = 0;
        while i < self.entries.len()
            invariant
                i <= self.entries@.len(),
                wanted@ == key@,
                keys_distinct(self.entries@),
                forall|j: int| 0 <= j < i ==> self.entries@[j].0@ != key@,
            decreases self.entries.len() - i,
        {
            if self.entries[i].0 == wanted {
                return Some(i);
            }
            i = i + 1;
        }
        None
    }

    /// Whether the table holds a session for the proposal `key`.
    pub fn contains_key(&self, key: &str) -> (r: bool)
        ensures
            r == has_key(self.entries(), key@),
    {
        self.position(key).is_some()
    }

    /// The session of the proposal `key`, if the table holds one.
    pub fn get(&self, key: &str) -> (r: Option<&VotingSession>)
        ensures
            match r {
                Some(session) => exists|i: int|
                    0 <= i < self.entries().len() && self.entries()[i].0@ == key@
                        && self.entries()[i].1 == *session,
                None => !has_key(self.entries(), key@),
            },
    {
        match self.position(key) {
            Some(i) => Some(&self.entries[i].1),
            None => None,
        }
    }

    /// Puts `session` in the table under `key`: in place of the session
    /// that the proposal had, or at the end where it had none.
    pub fn insert(&mut self, key: String, session: VotingSession)
        ensures
            final(self).wf(),
            has_key(old(self).entries(), key@) ==> exists|i: int|
                0 <= i < old(self).entries().len() && old(self).entries()[i].0@ == key@ && final(self).entries() == old(self).entries().update(i, (old(self).entries()[i].0, session)),
            !has_key(old(self).entries(), key@) ==> final(self).entries() == old(self).entries().push((key, session)),
    {
        let place = self.position(key.as_str());
        let mut entries = self.take_entries();
        match place {
            Some(i) => {
                let ghost before = entries@;
                let (name, _) = entries.remove(i);
                entries.insert(i, (name, session));
                assert(entries@ == before.update(i as int, (before[i as int].0, session)));
            },
            None => {
                entries.push((key, session));
            },
        }
        *self = ProposalTable { entries };
    }

    /// Moves the entries out and leaves the table empty.
    fn take_entries(&mut self) -> (r: Vec<(String, VotingSession)>)
        ensures
            r@ == old(self).entries(),
            keys_distinct(r@),
            final(self).entries() == Seq::<(String, VotingSession)>::empty(),
    {
        let mut table = ProposalTable::new();
        core::mem::swap(self, &mut table);
        proof {
            use_type_invariant(&table);
        }
        table.entries
    }
}

impl ProposalManager {
    /// A manager with no proposals, for which a session counts as active
    /// for `grace_period_secs` seconds after its end.
    pub fn new(grace_period_secs: i64) -> (r: ProposalManager)
        requires
            duration_in_range(grace_period_secs * 1_000_000_000),
        ensures
            r.proposals.entries() == Seq::<(String, VotingSession)>::empty(),
            r.grace_period.spec_nanos() == grace_period_secs * 1_000_000_000,
    {
        ProposalManager {
            proposals: ProposalTable::new(),
            grace_period: Duration::seconds(grace_period_secs),
        }
    }

    /// The instant, in nanoseconds since the epoch, before which a session
    /// must have ended in order to count as expired at `now`.
    pub open spec fn deadline(self, now: Timestamp) -> int {
        now.total_nanos() + self.grace_period.spec_nanos()
    }

    /// Opens the voting on a proposal now.
    pub fn add_proposal(&mut self, proposal_id: String, voter_id: String, voting_window: VotingWindow)
        ensures
            final(self).grace_period == old(self).grace_period,
            final(self).proposals.wf(),
            final(self).proposals.entries().len() == if has_key(
                old(self).proposals.entries(),
                proposal_id@,
            ) {
                old(self).proposals.entries().len()
            } else {
                old(self).proposals.entries().len() + 1
            },
            exists|i: int|
                0 <= i < final(self).proposals.entries().len() && opened(
                    (#[trigger] final(self).proposals.entries()[i]),
                    proposal_id@,
                    voter_id,
                    voting_window,
                ),
    {
        let ghost id = proposal_id@;
        let ghost before = self.proposals.entries();
        self.add_proposal_at(proposal_id, voter_id, voting_window, Timestamp::now());
        proof {
            let after = self.proposals.entries();
            if has_key(before, id) {
                let i = choose|i: int|
                    0 <= i < before.len() && before[i].0@ == id && after.len() == before.len()
                        && after[i].0 == before[i].0 && opened(
                        after[i],
                        id,
                        voter_id,
                        voting_window,
                    );
                assert(opened(after[i], id, voter_id, voting_window));
            } else {
                assert(opened(after[after.len() - 1], id, voter_id, voting_window));
            }
        }
    }

    /// Opens the voting on a proposal at `vote_start`. A proposal that is
    /// in the table already gets the new session in place of its old one.
    pub fn add_proposal_at(
        &mut self,
        proposal_id: String,
        voter_id: String,
        voting_window: VotingWindow,
        vote_start: Timestamp,
    )
        ensures
            final(self).grace_period == old(self).grace_period,
            final(self).proposals.wf(),
            has_key(old(self).proposals.entries(), proposal_id@) ==> exists|i: int|
                0 <= i < old(self).proposals.entries().len() && old(self).proposals.entries()[i].0@ == proposal_id@ && final(self).proposals.entries()
                    == old(self).proposals.entries().update(
                    i,
                    (
                        old(self).proposals.entries()[i].0,
                        (VotingSession { vote_start, voter_id, voting_window, extended: false }),
                    ),
                ),
            !has_key(old(self).proposals.entries(), proposal_id@) ==> final(self).proposals.entries() == old(self).proposals.entries().push(
                (
                    proposal_id,
                    (VotingSession { vote_start, voter_id, voting_window, extended: false }),
                ),
            ),
    {
        let session = VotingSession { vote_start, voter_id, voting_window, extended: false };
        self.proposals.insert(proposal_id, session);
    }

    /// The proposals whose sessions have not ended more than the grace
    /// period before `now`, in the order of the table.
    pub fn list_actives(&self, now: Timestamp) -> (r: Vec<(&String, &VotingSession)>)
        ensures
            r@.len() == active_entries(self.proposals.entries(), self.deadline(now)).len(),
            forall|i: int|
                0 <= i < r@.len() ==> (*r@[i].0, *r@[i].1) == #[trigger] active_entries(
                    self.proposals.entries(),
                    self.deadline(now),
                )[i],
    {
        let deadline: i128 = now.nanos_since_epoch() + self.grace_period.total_nanos();
        let mut actives: Vec<(&String, &VotingSession)> = Vec::new();
        let mut i: usize = 0;
        while i < self.proposals.entries.len()
            invariant
                i <= self.proposals.entries@.len(),
                deadline == self.deadline(now),
                actives@.len() == active_entries(
                    self.proposals.entries@.take(i as int),
                    deadline as int,
                ).len(),
                forall|j: int|
                    0 <= j < actives@.len() ==> (*actives@[j].0, *actives@[j].1)
                        == #[trigger] active_entries(
                        self.proposals.entries@.take(i as int),
                        deadline as int,
                    )[j],
            decreases self.proposals.entries.len() - i,
        {
            let entry = &self.proposals.entries[i];
            proof {
                let longer = self.proposals.entries@.take(i + 1);
                assert(longer.drop_last() == self.proposals.entries@.take(i as int));
                assert(longer.last() == *entry);
            }
            if !entry.1.expired_by(deadline) {
                actives.push((&entry.0, &entry.1));
            }
            i = i + 1;
        }
        proof {
            assert(self.proposals.entries@.take(self.proposals.entries@.len() as int)
                == self.proposals.entries@);
        }
        actives
    }

    /// Drops the proposals whose sessions have ended more than the grace
    /// period before `now`; the others stay, in their order.
    pub fn cleanup_expired(&mut self, now: Timestamp)
        ensures
            final(self).grace_period == old(self).grace_period,
            final(self).proposals.wf(),
            final(self).proposals.entries() == active_entries(
                old(self).proposals.entries(),
                old(self).deadline(now),
            ),
    {
        let deadline: i128 = now.nanos_since_epoch() + self.grace_period.total_nanos();
        let mut entries = self.proposals.take_entries();
        let ghost all = entries@;
        let mut kept: usize = 0;
        let ghost mut seen: int = 0;
        while kept < entries.len()
            invariant
                0 <= seen <= all.len(),
                kept <= entries@.len(),
                keys_distinct(all),
                entries@.len() - kept == all.len() - seen,
                entries@.take(kept as int) == active_entries(all.take(seen), deadline as int),
                entries@.skip(kept as int) == all.skip(seen),
            decreases entries.len() - kept,
        {
            let ghost before = entries@;
            proof {
                let longer = all.take(seen + 1);
                assert(longer.drop_last() == all.take(seen));
                assert(longer.last() == all[seen]);
                assert(before.skip(kept as int)[0] == all.skip(seen)[0]);
            }
            if entries[kept].1.expired_by(deadline) {
                proof {
                    let after = before.remove(kept as int);
                    assert(after.take(kept as int) == before.take(kept as int));
                    assert(after.skip(kept as int) == before.skip(kept as int).skip(1));
                    assert(all.skip(seen + 1) == all.skip(seen).skip(1));
                }
                entries.remove(kept);
            } else {
                proof {
                    assert(before.take(kept + 1) == before.take(kept as int).push(before[kept as int]));
                    assert(before.skip(kept + 1) == before.skip(kept as int).skip(1));
                    assert(all.skip(seen + 1) == all.skip(seen).skip(1));
                }
                kept = kept + 1;
            }
            proof {
                seen = seen + 1;
            }
        }
        proof {
            assert(all.take(all.len() as int) == all);
            assert(entries@.take(kept as int) == entries@);
            lemma_active_stay_distinct(all, deadline as int);
        }
        self.proposals = ProposalTable { entries };
    }
}

/// Whether `entry` is the session that opening the voting on `proposal`
/// makes: under that proposal, for that voter and window, not extended.
pub open spec fn opened(
    entry: (String, VotingSession),
    proposal: Seq<char>,
    voter_id: String,
    voting_window: VotingWindow,
) -> bool {
    &&& entry.0@ == proposal
    &&& entry.1.voter_id == voter_id
    &&& entry.1.voting_window == voting_window
    &&& !entry.1.extended
}

/// Dropping the expired entries of a table leaves no proposal twice.
pub proof fn lemma_active_stay_distinct(entries: Seq<(String, VotingSession)>, deadline: int)
    requires
        keys_distinct(entries),
    ensures
        keys_distinct(active_entries(entries, deadline)),
{
    let active = active_entries(entries, deadline);
    let pos = active_positions(entries, deadline);
    lemma_active_in_order(entries, deadline);
    assert forall|i: int, j: int| 0 <= i < j < active.len() implies active[i].0@ != active[j].0@ by {
        assert(active[i] == entries[pos[i]]);
        assert(active[j] == entries[pos[j]]);
        assert(pos[i] < pos[j]);
    }
}

/// The places in `entries` of its active entries, in rising order.
pub open spec fn active_positions(entries: Seq<(String, VotingSession)>, deadline: int) -> Seq<int>
    decreases entries.len(),
{
    if entries.len() == 0 {
        Seq::empty()
    } else if entries.last().1.expired_at(deadline) {
        active_positions(entries.drop_last(), deadline)
    } else {
        active_positions(entries.drop_last(), deadline).push(entries.len() - 1)
    }
}

/// The active entries stand in the order in which they stood among all the
/// entries.
pub proof fn lemma_active_in_order(entries: Seq<(String, VotingSession)>, deadline: int)
    ensures
        active_positions(entries, deadline).len() == active_entries(entries, deadline).len(),
        forall|k: int|
            0 <= k < active_positions(entries, deadline).len() ==> 0 <= (
            #[trigger] active_positions(entries, deadline)[k]) < entries.len() && entries[active_positions(
                entries,
                deadline,
            )[k]] == active_entries(entries, deadline)[k],
        forall|k: int, l: int|
            0 <= k < l < active_positions(entries, deadline).len() ==> active_positions(
                entries,
                deadline,
            )[k] < active_positions(entries, deadline)[l],
    decreases entries.len(),
{
    if entries.len() > 0 {
        lemma_active_in_order(entries.drop_last(), deadline);
    }
}

} // verus!
