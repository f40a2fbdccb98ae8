use std::collections::BTreeMap;
use vstd::prelude::*;

use crate::ballot::{
    contains_account, lemma_sides_after_members, lemma_sides_after_wf, record_ballot, side_of,
    sides_after, sides_wf,
};
use crate::tally::{tally, tally_spec};
use crate::types::{
    Ballot, Event, GovError, LockInfo, TallyResult, Vote, LOCK_VOTE, MAX_PAYLOAD_LEN, SIMPLE_VOTE,
};

verus! {

broadcast use {vstd::std_specs::btree::group_btree_axioms, vstd::laws_cmp::group_laws_cmp};

/// Abstract state of one vote.
pub struct VoteModel {
    pub vote: Vote,
    /// Accounts that voted aye, in the order they were recorded.
    pub aye: Seq<u64>,
    /// Accounts that voted nay, in the order they were recorded.
    pub nay: Seq<u64>,
    /// Lock of each voter that cast a lock-weighted ballot and has not withdrawn.
    pub locks: Map<u64, LockInfo>,
    /// Written once, at conclusion.
    pub result: Option<TallyResult>,
    /// Digest of the proposal payload.
    pub payload_hash: Seq<u8>,
}

impl VoteModel {
    /// Invariant of the vote with identifier `id`.
    pub open spec fn wf(self, id: int) -> bool {
        &&& self.vote.id == id
        &&& self.vote.when < self.vote.vote_ends
        &&& sides_wf(self.aye, self.nay, self.vote.creator)
        &&& (self.vote.concluded <==> self.result is Some)
        &&& self.vote.vote_type != LOCK_VOTE ==> self.locks.dom() == Set::<u64>::empty()
        &&& self.vote.vote_type == LOCK_VOTE && !self.vote.concluded ==> self.voters_locked()
    }

    /// Every account on either side holds a lock.
    pub open spec fn voters_locked(self) -> bool {
        forall|x: u64|
            #![trigger self.aye.contains(x)]
            #![trigger self.nay.contains(x)]
            (self.aye.contains(x) || self.nay.contains(x)) ==> self.locks.contains_key(x)
    }

    pub open spec fn with_sides(self, aye: Seq<u64>, nay: Seq<u64>) -> VoteModel {
        VoteModel {
            vote: self.vote,
            aye,
            nay,
            locks: self.locks,
            result: self.result,
            payload_hash: self.payload_hash,
        }
    }

    pub open spec fn with_locks(self, locks: Map<u64, LockInfo>) -> VoteModel {
        VoteModel {
            vote: self.vote,
            aye: self.aye,
            nay: self.nay,
            locks,
            result: self.result,
            payload_hash: self.payload_hash,
        }
    }

    /// The vote marked concluded, with its tally recorded.
    pub open spec fn concluded_with(self, t: TallyResult) -> VoteModel {
        VoteModel {
            vote: Vote { concluded: true, ..self.vote },
            aye: self.aye,
            nay: self.nay,
            locks: self.locks,
            result: Some(t),
            payload_hash: self.payload_hash,
        }
    }
}

/// Abstract state of the whole store: the vote counter and the votes, the vote
/// with identifier `id` at position `id - 1`.
pub struct GovView {
    pub count: u64,
    pub votes: Seq<VoteModel>,
}

impl GovView {
    pub open spec fn wf(self) -> bool {
        &&& self.votes.len() == self.count
        &&& forall|i: int| 0 <= i < self.votes.len() ==> (#[trigger] self.votes[i]).wf(i + 1)
    }

    pub open spec fn has_vote(self, id: u64) -> bool {
        1 <= id <= self.votes.len()
    }

    pub open spec fn entry(self, id: u64) -> VoteModel {
        self.votes[id - 1]
    }

    pub open spec fn set_entry(self, id: u64, e: VoteModel) -> GovView {
        GovView { count: self.count, votes: self.votes.update(id - 1, e) }
    }

    /// Why `create_vote` is rejected, if it is.
    pub open spec fn create_error(self, exp_length: u64, payload_len: nat, now: u64) -> Option<
        GovError,
    > {
        if payload_len > MAX_PAYLOAD_LEN {
            Some(GovError::PayloadTooLarge)
        } else if exp_length == 0 {
            Some(GovError::EmptyVotingPeriod)
        } else if self.count == u64::MAX || now + exp_length > u64::MAX {
            Some(GovError::Overflow)
        } else {
            None
        }
    }

    /// The store after a successful `create_vote`: a fresh open vote with the
    /// next identifier and no ballots.
    pub open spec fn after_create(
        self,
        creator: u64,
        vote_type: u8,
        exp_length: u64,
        payload_hash: Seq<u8>,
        now: u64,
    ) -> GovView {
        let id = (self.count + 1) as u64;
        GovView {
            count: id,
            votes: self.votes.push(
                VoteModel {
                    vote: Vote {
                        id,
                        creator,
                        when: now,
                        vote_ends: (now + exp_length) as u64,
                        concluded: false,
                        vote_type,
                    },
                    aye: Seq::empty(),
                    nay: Seq::empty(),
                    locks: Map::empty(),
                    result: None,
                    payload_hash,
                },
            ),
        }
    }

    /// Why `cast_ballot` by `voter` is rejected, if it is.
    pub open spec fn ballot_error(self, voter: u64, id: u64, side: Ballot, now: u64) -> Option<
        GovError,
    > {
        if !self.has_vote(id) {
            Some(GovError::NoSuchVote)
        } else if self.entry(id).vote.creator == voter {
            Some(GovError::OwnVote)
        } else if now >= self.entry(id).vote.vote_ends {
            Some(GovError::VoteExpired)
        } else if self.entry(id).vote.vote_type != SIMPLE_VOTE {
            Some(GovError::NotSimpleVote)
        } else if side_of(self.entry(id).aye, self.entry(id).nay, side).contains(voter) {
            Some(GovError::AlreadyVoted)
        } else {
            None
        }
    }

    /// The store after `voter` is recorded on `side` of vote `id`.
    pub open spec fn after_ballot(self, voter: u64, id: u64, side: Ballot) -> GovView {
        let e = self.entry(id);
        let (aye, nay) = sides_after(e.aye, e.nay, voter, side);
        self.set_entry(id, e.with_sides(aye, nay))
    }

    /// Why `cast_lockvote` by `voter` is rejected, if it is.
    pub open spec fn lockvote_error(
        self,
        voter: u64,
        id: u64,
        side: Ballot,
        deposit: u64,
        duration: u64,
        now: u64,
        free_balance: u64,
    ) -> Option<GovError> {
        if !self.has_vote(id) {
            Some(GovError::NoSuchVote)
        } else if self.entry(id).vote.creator == voter {
            Some(GovError::OwnVote)
        } else if now >= self.entry(id).vote.vote_ends {
            Some(GovError::VoteExpired)
        } else if self.entry(id).vote.vote_type != LOCK_VOTE {
            Some(GovError::NotLockVote)
        } else if now + duration > u64::MAX {
            Some(GovError::Overflow)
        } else if now + duration < self.entry(id).vote.vote_ends {
            Some(GovError::LockTooShort)
        } else if self.entry(id).locks.contains_key(voter) {
            Some(GovError::AlreadyLocked)
        } else if deposit >= free_balance {
            Some(GovError::InsufficientBalance)
        } else if side_of(self.entry(id).aye, self.entry(id).nay, side).contains(voter) {
            Some(GovError::AlreadyVoted)
        } else {
            None
        }
    }

    /// The store after `voter` locks `deposit` for `duration` heights from `now`
    /// and is recorded on `side` of vote `id`.
    pub open spec fn after_lockvote(
        self,
        voter: u64,
        id: u64,
        side: Ballot,
        deposit: u64,
        duration: u64,
        now: u64,
    ) -> GovView {
        let e = self.entry(id);
        let (aye, nay) = sides_after(e.aye, e.nay, voter, side);
        let lock = LockInfo { deposit, duration, until: (now + duration) as u64 };
        self.set_entry(id, e.with_sides(aye, nay).with_locks(e.locks.insert(voter, lock)))
    }

    /// Why `conclude_vote` is rejected, if it is.
    pub open spec fn conclude_error(self, id: u64, now: u64) -> Option<GovError> {
        if !self.has_vote(id) {
            Some(GovError::NoSuchVote)
        } else if self.entry(id).vote.concluded {
            Some(GovError::AlreadyConcluded)
        } else if now <= self.entry(id).vote.vote_ends {
            Some(GovError::NotExpired)
        } else {
            match self.tally_of(id) {
                Ok(_) => None,
                Err(e) => Some(e),
            }
        }
    }

    /// The tally of vote `id` over its current voter sets and locks.
    pub open spec fn tally_of(self, id: u64) -> Result<TallyResult, GovError> {
        let e = self.entry(id);
        tally_spec(e.vote.vote_type, e.aye, e.nay, e.locks)
    }

    /// The store after vote `id` concludes with its tally.
    pub open spec fn after_conclude(self, id: u64) -> GovView {
        self.set_entry(id, self.entry(id).concluded_with(self.tally_of(id)->Ok_0))
    }

    /// Why `withdraw` by `voter` is rejected, if it is.
    pub open spec fn withdraw_error(self, voter: u64, id: u64, now: u64) -> Option<GovError> {
        if !self.has_vote(id) {
            Some(GovError::NoSuchVote)
        } else if self.entry(id).vote.vote_type != LOCK_VOTE {
            Some(GovError::NotLockVote)
        } else if !self.entry(id).vote.concluded {
            Some(GovError::NotConcluded)
        } else if !self.entry(id).locks.contains_key(voter) {
            Some(GovError::NoLock)
        } else if self.entry(id).locks[voter].until >= now {
            Some(GovError::LockNotOver)
        } else {
            None
        }
    }

    /// The store after `voter`'s lock on vote `id` is released.
    pub open spec fn after_withdraw(self, voter: u64, id: u64) -> GovView {
        let e = self.entry(id);
        self.set_entry(id, e.with_locks(e.locks.remove(voter)))
    }
}

/// Number of votes in `votes` created by `who`.
pub open spec fn created_count(votes: Seq<VoteModel>, who: u64) -> nat
    decreases votes.len(),
{
    if votes.len() == 0 {
        0
    } else {
        created_count(votes.drop_last(), who) + if votes.last().vote.creator == who {
            1nat
        } else {
            0nat
        }
    }
}

/// A copy of `v`.
fn copy_of<T: Copy>(v: &Vec<T>) -> (r: Vec<T>)
    ensures
        r@ == v@,
{
    let mut r: Vec<T> = Vec::new();
    let mut i: usize = 0;
    while i < v.len()
        invariant
            i <= v.len(),
            r@ == v@.take(i as int),
        decreases v.len() - i,
    {
        r.push(v[i]);
        i += 1;
        assert(r@ =~= v@.take(i as int));
    }
    assert(v@.take(i as int) =~= v@);
    r
}

struct VoteEntry {
    vote: Vote,
    aye: Vec<u64>,
    nay: Vec<u64>,
    locks: BTreeMap<u64, LockInfo>,
    result: Option<TallyResult>,
    payload_hash: Vec<u8>,
}

impl VoteEntry {
    closed spec fn model(&self) -> VoteModel {
        VoteModel {
            vote: self.vote,
            aye: self.aye@,
            nay: self.nay@,
            locks: self.locks@,
            result: self.result,
            payload_hash: self.payload_hash@,
        }
    }
}

/// The vote store: every vote with its voter sets, locks and tally.
pub struct Governance {
    all_vote_count: u64,
    entries: Vec<VoteEntry>,
}

impl View for Governance {
    type V = GovView;

    closed spec fn view(&self) -> GovView {
        GovView {
            count: self.all_vote_count,
            votes: self.entries@.map_values(|e: VoteEntry| e.model()),
        }
    }
}

impl Governance {
    pub open spec fn wf(&self) -> bool {
        self@.wf()
    }

    /// An empty store.
    pub fn new() -> (g: Governance)
        ensures
            g.wf(),
            g@.count == 0,
            g@.votes.len() == 0,
    {
        let g = Governance { all_vote_count: 0, entries: Vec::new() };
        assert(g@.votes.len() == 0);
        g
    }

    /// Position of the vote `id` in the store, if it exists.
    fn position(&self, id: u64) -> (r: Option<usize>)
        requires
            self.wf(),
        ensures
            match r {
                Some(k) => self@.has_vote(id) && k == id - 1 && k < self.entries.len(),
                None => !self@.has_vote(id),
            },
    {
        assert(self@.votes.len() == self.entries@.len());
        assert(self.entries.len() == self.all_vote_count);
        if id == 0 || id > self.all_vote_count {
            None
        } else {
            Some((id - 1) as usize)
        }
    }

    /// Stores `new_vote` under the next identifier and announces it.
    fn mint_vote(&mut self, new_vote: Vote, payload_hash: Vec<u8>) -> (e: Event)
        requires
            old(self).wf(),
            old(self)@.count < u64::MAX,
            new_vote.id == old(self)@.count + 1,
            new_vote.when < new_vote.vote_ends,
            !new_vote.concluded,
        ensures
            final(self).wf(),
            final(self)@ == old(self)@.after_create(
                new_vote.creator,
                new_vote.vote_type,
                (new_vote.vote_ends - new_vote.when) as u64,
                payload_hash@,
                new_vote.when,
            ),
            e == Event::Created(new_vote.creator, new_vote.id),
    {
        let creator = new_vote.creator;
        let id = new_vote.id;
        let entry = VoteEntry {
            vote: new_vote,
            aye: Vec::new(),
            nay: Vec::new(),
            locks: BTreeMap::new(),
            result: None,
            payload_hash,
        };
        let ghost old_view = self@;
        self.entries.push(entry);
        self.all_vote_count = id;
        proof {
            let target = old_view.after_create(
                new_vote.creator,
                new_vote.vote_type,
                (new_vote.vote_ends - new_vote.when) as u64,
                entry.payload_hash@,
                new_vote.when,
            );
            assert(self@.votes =~= target.votes);
            assert(self@.votes[old_view.votes.len() as int].wf(old_view.votes.len() as int + 1));
        }
        Event::Created(creator, id)
    }

    /// Creates a vote of type `vote_type` open from height `now` for `exp_length`
    /// heights, with proposal payload `data` whose digest is `data_hash`.
    pub fn create_vote(
        &mut self,
        sender: u64,
        vote_type: u8,
        exp_length: u64,
        data: &Vec<u8>,
        data_hash: Vec<u8>,
        now: u64,
    ) -> (r: Result<Event, GovError>)
        requires
            old(self).wf(),
        ensures
            final(self).wf(),
            match old(self)@.create_error(exp_length, data@.len(), now) {
                Some(err) => r == Err::<Event, GovError>(err) && final(self)@ == old(self)@,
                None => {
                    &&& r == Ok::<Event, GovError>(Event::Created(sender, (old(self)@.count + 1) as u64))
                    &&& final(self)@ == old(self)@.after_create(
                        sender,
                        vote_type,
                        exp_length,
                        data_hash@,
                        now,
                    )
                },
            },
    {
        if data.len() > MAX_PAYLOAD_LEN {
            return Err(GovError::PayloadTooLarge);
        }
        if exp_length == 0 {
            return Err(GovError::EmptyVotingPeriod);
        }
        let new_vote_num = match self.all_vote_count.checked_add(1) {
            Some(n) => n,
            None => {
                return Err(GovError::Overflow);
            },
        };
        let vote_exp = match now.checked_add(exp_length) {
            Some(e) => e,
            None => {
                return Err(GovError::Overflow);
            },
        };
        let new_vote = Vote {
            id: new_vote_num,
            creator: sender,
            when: now,
            vote_ends: vote_exp,
            concluded: false,
            vote_type,
        };
        Ok(self.mint_vote(new_vote, data_hash))
    }
    /// Records `voter`'s ballot on vote `id` after all checks passed.
    fn cast_ballot_f(&mut self, voter: u64, k: usize, side: Ballot) -> (e: Event)
        requires
            old(self).wf(),
            k < old(self)@.votes.len(),
            old(self)@.votes[k as int].vote.creator != voter,
            !side_of(old(self)@.votes[k as int].aye, old(self)@.votes[k as int].nay, side).contains(
                voter,
            ),
            old(self)@.votes[k as int].vote.vote_type == LOCK_VOTE ==> old(self)@.votes[
                k as int
            ].locks.contains_key(voter),
        ensures
            final(self).wf(),
            final(self)@ == old(self)@.after_ballot(voter, (k + 1) as u64, side),
            e == Event::Voted(voter, (k + 1) as u64, side),
    {
        let ghost old_view = self@;
        assert(self.entries@.len() == old_view.votes.len());
        let id = self.entries[k].vote.id;
        assert(old_view.votes[k as int].wf(k + 1));
        let entry = &mut self.entries[k];
        record_ballot(&mut entry.aye, &mut entry.nay, voter, side);
        proof {
            let old_e = old_view.votes[k as int];
            lemma_sides_after_wf(old_e.aye, old_e.nay, old_e.vote.creator, voter, side);
            lemma_sides_after_members(old_e.aye, old_e.nay, voter, side);
            assert(self@.votes =~= old_view.after_ballot(voter, (k + 1) as u64, side).votes);
            assert(self@.votes[k as int].wf(k + 1));
        }
        Event::Voted(voter, id, side)
    }

    /// Casts `voter`'s simple ballot on vote `id` at height `now`. A voter on the
    /// other side switches; a voter already on `side` is rejected.
    pub fn cast_ballot(&mut self, voter: u64, id: u64, side: Ballot, now: u64) -> (r: Result<
        Event,
        GovError,
    >)
        requires
            old(self).wf(),
        ensures
            final(self).wf(),
            match old(self)@.ballot_error(voter, id, side, now) {
                Some(err) => r == Err::<Event, GovError>(err) && final(self)@ == old(self)@,
                None => {
                    &&& r == Ok::<Event, GovError>(Event::Voted(voter, id, side))
                    &&& final(self)@ == old(self)@.after_ballot(voter, id, side)
                },
            },
    {
        let k = match self.position(id) {
            Some(k) => k,
            None => {
                return Err(GovError::NoSuchVote);
            },
        };
        let vote = self.entries[k].vote;
        if vote.creator == voter {
            return Err(GovError::OwnVote);
        }
        if vote.vote_ends <= now {
            return Err(GovError::VoteExpired);
        }
        if vote.vote_type != SIMPLE_VOTE {
            return Err(GovError::NotSimpleVote);
        }
        let already = match side {
            Ballot::Aye => contains_account(&self.entries[k].aye, voter),
            Ballot::Nay => contains_account(&self.entries[k].nay, voter),
        };
        if already {
            return Err(GovError::AlreadyVoted);
        }
        Ok(self.cast_ballot_f(voter, k, side))
    }

    /// Casts `voter`'s lock-weighted ballot on vote `id` at height `now`, locking
    /// `deposit` for `duration` heights; `free_balance` is the voter's free
    /// balance. On success the host places the lock.
    pub fn cast_lockvote(
        &mut self,
        voter: u64,
        id: u64,
        side: Ballot,
        deposit: u64,
        duration: u64,
        now: u64,
        free_balance: u64,
    ) -> (r: Result<Event, GovError>)
        requires
            old(self).wf(),
        ensures
            final(self).wf(),
            match old(self)@.lockvote_error(voter, id, side, deposit, duration, now, free_balance) {
                Some(err) => r == Err::<Event, GovError>(err) && final(self)@ == old(self)@,
                None => {
                    &&& r == Ok::<Event, GovError>(Event::Voted(voter, id, side))
                    &&& final(self)@ == old(self)@.after_lockvote(
                        voter,
                        id,
                        side,
                        deposit,
                        duration,
                        now,
                    )
                },
            },
    {
        let k = match self.position(id) {
            Some(k) => k,
            None => {
                return Err(GovError::NoSuchVote);
            },
        };
        let vote = self.entries[k].vote;
        if vote.creator == voter {
            return Err(GovError::OwnVote);
        }
        if vote.vote_ends <= now {
            return Err(GovError::VoteExpired);
        }
        if vote.vote_type != LOCK_VOTE {
            return Err(GovError::NotLockVote);
        }
        let until = match now.checked_add(duration) {
            Some(u) => u,
            None => {
                return Err(GovError::Overflow);
            },
        };
        if until < vote.vote_ends {
            return Err(GovError::LockTooShort);
        }
        if self.entries[k].locks.contains_key(&voter) {
            return Err(GovError::AlreadyLocked);
        }
        if deposit >= free_balance {
            return Err(GovError::InsufficientBalance);
        }
        let already = match side {
            Ballot::Aye => contains_account(&self.entries[k].aye, voter),
            Ballot::Nay => contains_account(&self.entries[k].nay, voter),
        };
        if already {
            return Err(GovError::AlreadyVoted);
        }
        let ghost old_view = self@;
        assert(self.entries@.len() == old_view.votes.len());
        assert(old_view.votes[k as int].wf(k + 1));
        let entry = &mut self.entries[k];
        entry.locks.insert(voter, LockInfo { deposit, duration, until });
        proof {
            let lock = LockInfo { deposit, duration, until };
            let old_e = old_view.votes[k as int];
            let new_e = old_e.with_locks(old_e.locks.insert(voter, lock));
            assert(self@.votes =~= old_view.votes.update(k as int, new_e));
            assert(self@.votes[k as int].wf(k + 1));
        }
        let ev = self.cast_ballot_f(voter, k, side);
        proof {
            assert(self@.votes =~= old_view.after_lockvote(
                voter,
                id,
                side,
                deposit,
                duration,
                now,
            ).votes);
        }
        Ok(ev)
    }

    /// Concludes vote `id` at height `now`: computes and records its tally and
    /// marks it concluded. Anyone may call it.
    pub fn conclude_vote(&mut self, id: u64, now: u64) -> (r: Result<Event, GovError>)
        requires
            old(self).wf(),
        ensures
            final(self).wf(),
            match old(self)@.conclude_error(id, now) {
                Some(err) => r == Err::<Event, GovError>(err) && final(self)@ == old(self)@,
                None => {
                    &&& r == Ok::<Event, GovError>(Event::Concluded(id))
                    &&& final(self)@ == old(self)@.after_conclude(id)
                },
            },
    {
        let k = match self.position(id) {
            Some(k) => k,
            None => {
                return Err(GovError::NoSuchVote);
            },
        };
        let vote = self.entries[k].vote;
        if vote.concluded {
            return Err(GovError::AlreadyConcluded);
        }
        if now <= vote.vote_ends {
            return Err(GovError::NotExpired);
        }
        let result = match tally(
            vote.vote_type,
            &self.entries[k].aye,
            &self.entries[k].nay,
            &self.entries[k].locks,
        ) {
            Ok(t) => t,
            Err(e) => {
                return Err(e);
            },
        };
        let ghost old_view = self@;
        assert(self.entries@.len() == old_view.votes.len());
        assert(old_view.votes[k as int].wf(k + 1));
        let entry = &mut self.entries[k];
        entry.vote.concluded = true;
        entry.result = Some(result);
        proof {
            assert(self@.votes =~= old_view.after_conclude(id).votes);
            assert(self@.votes[k as int].wf(k + 1));
        }
        Ok(Event::Concluded(id))
    }

    /// Releases `voter`'s lock on the concluded lock-weighted vote `id` at height
    /// `now`. On success the host removes the lock.
    pub fn withdraw(&mut self, voter: u64, id: u64, now: u64) -> (r: Result<Event, GovError>)
        requires
            old(self).wf(),
        ensures
            final(self).wf(),
            match old(self)@.withdraw_error(voter, id, now) {
                Some(err) => r == Err::<Event, GovError>(err) && final(self)@ == old(self)@,
                None => {
                    &&& r == Ok::<Event, GovError>(Event::Withdrew(voter, id))
                    &&& final(self)@ == old(self)@.after_withdraw(voter, id)
                },
            },
    {
        let k = match self.position(id) {
            Some(k) => k,
            None => {
                return Err(GovError::NoSuchVote);
            },
        };
        let vote = self.entries[k].vote;
        if vote.vote_type != LOCK_VOTE {
            return Err(GovError::NotLockVote);
        }
        if !vote.concluded {
            return Err(GovError::NotConcluded);
        }
        let until = match self.entries[k].locks.get(&voter) {
            Some(lock) => lock.until,
            None => {
                return Err(GovError::NoLock);
            },
        };
        if until >= now {
            return Err(GovError::LockNotOver);
        }
        let ghost old_view = self@;
        assert(self.entries@.len() == old_view.votes.len());
        assert(old_view.votes[k as int].wf(k + 1));
        let entry = &mut self.entries[k];
        entry.locks.remove(&voter);
        proof {
            assert(self@.votes =~= old_view.after_withdraw(voter, id).votes);
            assert(self@.votes[k as int].wf(k + 1));
        }
        Ok(Event::Withdrew(voter, id))
    }

    /// Number of votes created so far; also the identifier of the latest one.
    pub fn all_vote_count(&self) -> (r: u64)
        ensures
            r == self@.count,
    {
        self.all_vote_count
    }

    /// The record of vote `id`, if it exists.
    pub fn votes(&self, id: u64) -> (r: Option<Vote>)
        requires
            self.wf(),
        ensures
            r == if self@.has_vote(id) {
                Some(self@.entry(id).vote)
            } else {
                None::<Vote>
            },
    {
        match self.position(id) {
            Some(k) => Some(self.entries[k].vote),
            None => None,
        }
    }

    /// The creator of vote `id`, if it exists.
    pub fn creator_of(&self, id: u64) -> (r: Option<u64>)
        requires
            self.wf(),
        ensures
            r == if self@.has_vote(id) {
                Some(self@.entry(id).vote.creator)
            } else {
                None::<u64>
            },
    {
        match self.position(id) {
            Some(k) => Some(self.entries[k].vote.creator),
            None => None,
        }
    }

    /// Vote `id` if it exists and was created by `who`.
    pub fn created_by_and_index(&self, who: u64, id: u64) -> (r: Option<Vote>)
        requires
            self.wf(),
        ensures
            r == if self@.has_vote(id) && self@.entry(id).vote.creator == who {
                Some(self@.entry(id).vote)
            } else {
                None::<Vote>
            },
    {
        match self.position(id) {
            Some(k) => {
                if self.entries[k].vote.creator == who {
                    Some(self.entries[k].vote)
                } else {
                    None
                }
            },
            None => None,
        }
    }

    /// Number of votes created by `who`.
    pub fn created_by(&self, who: u64) -> (r: u64)
        requires
            self.wf(),
        ensures
            r == created_count(self@.votes, who),
    {
        let mut count: u64 = 0;
        let mut i: usize = 0;
        while i < self.entries.len()
            invariant
                i <= self.entries.len(),
                self@.votes.len() == self.entries@.len(),
                count <= i,
                count == created_count(self@.votes.take(i as int), who),
            decreases self.entries.len() - i,
        {
            proof {
                assert(self@.votes.take(i + 1).drop_last() =~= self@.votes.take(i as int));
                assert(self@.votes[i as int] == self.entries@[i as int].model());
            }
            if self.entries[i].vote.creator == who {
                count += 1;
            }
            i += 1;
        }
        assert(self@.votes.take(i as int) =~= self@.votes);
        count
    }

    /// The accounts recorded on `side` of vote `id`, in the order they were
    /// recorded; empty if the vote does not exist.
    pub fn voted_accounts(&self, id: u64, side: Ballot) -> (r: Vec<u64>)
        requires
            self.wf(),
        ensures
            r@ == if self@.has_vote(id) {
                side_of(self@.entry(id).aye, self@.entry(id).nay, side)
            } else {
                Seq::<u64>::empty()
            },
    {
        match self.position(id) {
            Some(k) => match side {
                Ballot::Aye => copy_of(&self.entries[k].aye),
                Ballot::Nay => copy_of(&self.entries[k].nay),
            },
            None => Vec::new(),
        }
    }

    /// The lock `who` holds on vote `id`, if any.
    pub fn lock_info(&self, id: u64, who: u64) -> (r: Option<LockInfo>)
        requires
            self.wf(),
        ensures
            r == if self@.has_vote(id) && self@.entry(id).locks.contains_key(who) {
                Some(self@.entry(id).locks[who])
            } else {
                None::<LockInfo>
            },
    {
        match self.position(id) {
            Some(k) => match self.entries[k].locks.get(&who) {
                Some(lock) => Some(*lock),
                None => None,
            },
            None => None,
        }
    }

    /// The tally of vote `id`, present once it concluded.
    pub fn vote_results(&self, id: u64) -> (r: Option<TallyResult>)
        requires
            self.wf(),
        ensures
            r == if self@.has_vote(id) {
                self@.entry(id).result
            } else {
                None::<TallyResult>
            },
    {
        match self.position(id) {
            Some(k) => self.entries[k].result,
            None => None,
        }
    }

    /// The digest of vote `id`'s proposal payload, if the vote exists.
    pub fn index_hash(&self, id: u64) -> (r: Option<Vec<u8>>)
        requires
            self.wf(),
        ensures
            match r {
                Some(h) => self@.has_vote(id) && h@ == self@.entry(id).payload_hash,
                None => !self@.has_vote(id),
            },
    {
        match self.position(id) {
            Some(k) => Some(copy_of(&self.entries[k].payload_hash)),
            None => None,
        }
    }
}

} // verus!
