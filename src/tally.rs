use std::collections::BTreeMap;
use vstd::prelude::*;

use crate::types::{GovError, LockInfo, TallyResult, LOCK_VOTE, SIMPLE_VOTE};

verus! {

broadcast use {vstd::std_specs::btree::group_btree_axioms, vstd::laws_cmp::group_laws_cmp};

/// Weight of one ballot on a lock-weighted vote: the voter's deposit times
/// the lock's duration, or nothing where the voter holds no lock.
pub open spec fn lock_weight(locks: Map<u64, LockInfo>, who: u64) -> nat {
    if locks.contains_key(who) {
        (locks[who].deposit * locks[who].duration) as nat
    } else {
        0
    }
}

/// Sum of the lock weights of the accounts in `voters`.
pub open spec fn side_weight(voters: Seq<u64>, locks: Map<u64, LockInfo>) -> nat
    decreases voters.len(),
{
    if voters.len() == 0 {
        0
    } else {
        side_weight(voters.drop_last(), locks) + lock_weight(locks, voters.last())
    }
}

/// The tally of a vote of type `vote_type` with the given voter sets and locks.
/// A simple vote counts accounts; a lock-weighted vote sums each side's own
/// lock weights, and fails where a sum does not fit in 64 bits.
pub open spec fn tally_spec(
    vote_type: u8,
    aye: Seq<u64>,
    nay: Seq<u64>,
    locks: Map<u64, LockInfo>,
) -> Result<TallyResult, GovError> {
    if vote_type == SIMPLE_VOTE {
        Ok(TallyResult { aye_weight: aye.len() as u64, nay_weight: nay.len() as u64 })
    } else if vote_type == LOCK_VOTE {
        let a = side_weight(aye, locks);
        let n = side_weight(nay, locks);
        if a > u64::MAX || n > u64::MAX {
            Err(GovError::Overflow)
        } else {
            Ok(TallyResult { aye_weight: a as u64, nay_weight: n as u64 })
        }
    } else {
        Err(GovError::UnsupportedVoteType)
    }
}

/// The weight of a prefix never exceeds the weight of the whole sequence.
proof fn lemma_side_weight_prefix(voters: Seq<u64>, locks: Map<u64, LockInfo>, i: int)
    requires
        0 <= i <= voters.len(),
    ensures
        side_weight(voters.take(i), locks) <= side_weight(voters, locks),
    decreases voters.len(),
{
    if i < voters.len() {
        lemma_side_weight_prefix(voters.drop_last(), locks, i);
        assert(voters.drop_last().take(i) =~= voters.take(i));
    } else {
        assert(voters.take(i) =~= voters);
    }
}

/// Sum of the lock weights of `voters`, or `None` where it does not fit in 64 bits.
fn locked_weight(voters: &Vec<u64>, locks: &BTreeMap<u64, LockInfo>) -> (r: Option<u64>)
    ensures
        match r {
            Some(w) => w == side_weight(voters@, locks@),
            None => side_weight(voters@, locks@) > u64::MAX,
        },
{
    let mut total: u64 = 0;
    let mut i: usize = 0;
    while i < voters.len()
        invariant
            i <= voters.len(),
            total == side_weight(voters@.take(i as int), locks@),
        decreases voters.len() - i,
    {
        let who = voters[i];
        proof {
            assert(voters@.take(i + 1).drop_last() =~= voters@.take(i as int));
            lemma_side_weight_prefix(voters@, locks@, i + 1);
        }
        let w: u64 = match locks.get(&who) {
            Some(lock) => match lock.deposit.checked_mul(lock.duration) {
                Some(p) => p,
                None => {
                    return None;
                },
            },
            None => 0,
        };
        match total.checked_add(w) {
            Some(t) => {
                total = t;
            },
            None => {
                return None;
            },
        }
        i += 1;
    }
    proof {
        assert(voters@.take(i as int) =~= voters@);
    }
    Some(total)
}

/// Computes the tally of a vote from its type, its voter sets and its locks.
pub(crate) fn tally(
    vote_type: u8,
    aye: &Vec<u64>,
    nay: &Vec<u64>,
    locks: &BTreeMap<u64, LockInfo>,
) -> (r: Result<TallyResult, GovError>)
    ensures
        r == tally_spec(vote_type, aye@, nay@, locks@),
{
    if vote_type == SIMPLE_VOTE {
        Ok(TallyResult { aye_weight: aye.len() as u64, nay_weight: nay.len() as u64 })
    } else if vote_type == LOCK_VOTE {
        let a = locked_weight(aye, locks);
        let n = locked_weight(nay, locks);
        match (a, n) {
            (Some(a), Some(n)) => Ok(TallyResult { aye_weight: a, nay_weight: n }),
            _ => Err(GovError::Overflow),
        }
    } else {
        Err(GovError::UnsupportedVoteType)
    }
}

} // verus!
