//! Properties that relate the operations of the store, stated over the same
//! spec functions that the operations' contracts use.
use vstd::prelude::*;

use crate::ballot::{lemma_without, side_of, without};
use crate::store::GovView;
use crate::types::{Ballot, GovError, LOCK_VOTE};

verus! {

broadcast use vstd::map::group_map_axioms;

/// The other side.
pub open spec fn opposite(side: Ballot) -> Ballot {
    match side {
        Ballot::Aye => Ballot::Nay,
        Ballot::Nay => Ballot::Aye,
    }
}

/// In every well-formed store, which every operation preserves, no account is
/// on both sides of a vote.
pub proof fn law_sides_exclusive(g: GovView, id: u64, who: u64)
    requires
        g.wf(),
        g.has_vote(id),
    ensures
        !(g.entry(id).aye.contains(who) && g.entry(id).nay.contains(who)),
{
    assert(g.votes[id - 1].wf(id - 1 + 1));
    let e = g.entry(id);
    if e.aye.contains(who) && e.nay.contains(who) {
        let i = choose|i: int| 0 <= i < e.aye.len() && e.aye[i] == who;
        let j = choose|j: int| 0 <= j < e.nay.len() && e.nay[j] == who;
        assert(e.aye[i] != e.nay[j]);
    }
}

/// Once a simple ballot of `voter` on `side` succeeded, the same ballot again
/// is rejected; while the vote is open the rejection is `AlreadyVoted`. A
/// rejected ballot leaves the store unchanged.
pub proof fn law_same_side_twice_rejected(
    g: GovView,
    voter: u64,
    id: u64,
    side: Ballot,
    now: u64,
    later: u64,
)
    requires
        g.wf(),
        g.ballot_error(voter, id, side, now) is None,
    ensures
        g.after_ballot(voter, id, side).ballot_error(voter, id, side, later) is Some,
        later < g.entry(id).vote.vote_ends ==> g.after_ballot(voter, id, side).ballot_error(
            voter,
            id,
            side,
            later,
        ) == Some(GovError::AlreadyVoted),
{
    let g1 = g.after_ballot(voter, id, side);
    let e1 = g1.entry(id);
    assert(side_of(e1.aye, e1.nay, side).last() == voter);
}

/// Switching sides: after a ballot on `side`, a ballot on the opposite side at
/// the same height is accepted, and once recorded the voter is only on the
/// opposite side, which grew by one while `side` shrank by one.
pub proof fn law_switch_sides(
    g: GovView,
    voter: u64,
    id: u64,
    side: Ballot,
    now: u64,
)
    requires
        g.wf(),
        g.ballot_error(voter, id, side, now) is None,
    ensures
        ({
            let g1 = g.after_ballot(voter, id, side);
            let g2 = g1.after_ballot(voter, id, opposite(side));
            &&& g1.ballot_error(voter, id, opposite(side), now) is None
            &&& !side_of(g2.entry(id).aye, g2.entry(id).nay, side).contains(voter)
            &&& side_of(g2.entry(id).aye, g2.entry(id).nay, opposite(side)).contains(voter)
            &&& side_of(g2.entry(id).aye, g2.entry(id).nay, side).len() == side_of(
                g1.entry(id).aye,
                g1.entry(id).nay,
                side,
            ).len() - 1
            &&& side_of(g2.entry(id).aye, g2.entry(id).nay, opposite(side)).len() == side_of(
                g1.entry(id).aye,
                g1.entry(id).nay,
                opposite(side),
            ).len() + 1
        }),
{
    let e0 = g.entry(id);
    assert(g.votes[id - 1].wf(id - 1 + 1));
    let g1 = g.after_ballot(voter, id, side);
    let e1 = g1.entry(id);
    lemma_without(e0.aye, voter);
    lemma_without(e0.nay, voter);
    let s1 = side_of(e1.aye, e1.nay, side);
    assert(s1.last() == voter);
    assert(s1.contains(voter));
    assert(s1.no_duplicates()) by {
        assert forall|i: int, j: int| 0 <= i < s1.len() && 0 <= j < s1.len() && i != j implies s1[i]
            != s1[j] by {
            let s0 = side_of(e0.aye, e0.nay, side);
            if i < s0.len() && j < s0.len() {
                assert(s0[i] != s0[j]);
            } else if i < s0.len() {
                assert(s0.contains(s0[i]));
            } else if j < s0.len() {
                assert(s0.contains(s0[j]));
            }
        }
    }
    lemma_without(s1, voter);
    let o1 = side_of(e1.aye, e1.nay, opposite(side));
    assert(!o1.contains(voter));
    assert(g1.ballot_error(voter, id, opposite(side), now) is None);
    let g2 = g1.after_ballot(voter, id, opposite(side));
    let e2 = g2.entry(id);
    assert(side_of(e2.aye, e2.nay, side) == without(s1, voter));
    assert(side_of(e2.aye, e2.nay, opposite(side)) == o1.push(voter));
    assert(o1.push(voter).last() == voter);
}

/// A vote cannot be concluded at or before its expiry height, and once it
/// concluded every further conclusion is rejected with `AlreadyConcluded`.
pub proof fn law_conclude_gated(g: GovView, id: u64, now: u64, later: u64)
    requires
        g.wf(),
    ensures
        g.has_vote(id) && now <= g.entry(id).vote.vote_ends ==> g.conclude_error(id, now) is Some,
        g.conclude_error(id, now) is None ==> g.after_conclude(id).conclude_error(id, later)
            == Some(GovError::AlreadyConcluded),
{
}

/// Withdrawal is gated on both conclusion and the lock's release height: it
/// succeeds exactly on a concluded lock-weighted vote where the voter holds a
/// lock whose release height has passed, and once it succeeded a second
/// withdrawal is rejected with `NoLock`.
pub proof fn law_withdraw_gated(g: GovView, voter: u64, id: u64, now: u64, later: u64)
    requires
        g.wf(),
    ensures
        g.has_vote(id) && !g.entry(id).vote.concluded ==> g.withdraw_error(voter, id, now) is Some,
        g.has_vote(id) && g.entry(id).locks.contains_key(voter) && now <= g.entry(id).locks[voter].until
            ==> g.withdraw_error(voter, id, now) is Some,
        g.withdraw_error(voter, id, now) is None <==> {
            &&& g.has_vote(id)
            &&& g.entry(id).vote.vote_type == LOCK_VOTE
            &&& g.entry(id).vote.concluded
            &&& g.entry(id).locks.contains_key(voter)
            &&& g.entry(id).locks[voter].until < now
        },
        g.withdraw_error(voter, id, now) is None ==> g.after_withdraw(voter, id).withdraw_error(
            voter,
            id,
            later,
        ) == Some(GovError::NoLock),
{
}

/// A lock-weighted ballot is accepted at most once per voter and vote: after
/// one succeeded, every further lock-weighted ballot by that voter on that vote
/// is rejected, whatever its side, deposit or duration.
pub proof fn law_lock_once(
    g: GovView,
    voter: u64,
    id: u64,
    side: Ballot,
    deposit: u64,
    duration: u64,
    now: u64,
    free_balance: u64,
    side2: Ballot,
    deposit2: u64,
    duration2: u64,
    later: u64,
    free_balance2: u64,
)
    requires
        g.wf(),
        g.lockvote_error(voter, id, side, deposit, duration, now, free_balance) is None,
    ensures
        g.after_lockvote(voter, id, side, deposit, duration, now).lockvote_error(
            voter,
            id,
            side2,
            deposit2,
            duration2,
            later,
            free_balance2,
        ) is Some,
{
}

/// The creator of a vote cannot cast a ballot on it, by either protocol,
/// whatever the vote's type.
pub proof fn law_creator_cannot_vote(
    g: GovView,
    id: u64,
    side: Ballot,
    deposit: u64,
    duration: u64,
    now: u64,
    free_balance: u64,
)
    requires
        g.has_vote(id),
    ensures
        g.ballot_error(g.entry(id).vote.creator, id, side, now) == Some(GovError::OwnVote),
        g.lockvote_error(g.entry(id).vote.creator, id, side, deposit, duration, now, free_balance)
            == Some(GovError::OwnVote),
{
}

} // verus!
