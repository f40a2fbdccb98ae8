use vstd::prelude::*;

use crate::types::Ballot;

verus! {

/// `s` with the one occurrence of `who` removed, if there is one.
pub open spec fn without(s: Seq<u64>, who: u64) -> Seq<u64> {
    if s.contains(who) {
        s.remove(s.index_of(who))
    } else {
        s
    }
}

/// The voter set of `side`.
pub open spec fn side_of(aye: Seq<u64>, nay: Seq<u64>, side: Ballot) -> Seq<u64> {
    match side {
        Ballot::Aye => aye,
        Ballot::Nay => nay,
    }
}

/// The (aye, nay) voter sets after `who` votes `side`: appended to that side,
/// and taken off the other side if present there.
pub open spec fn sides_after(aye: Seq<u64>, nay: Seq<u64>, who: u64, side: Ballot) -> (
    Seq<u64>,
    Seq<u64>,
) {
    match side {
        Ballot::Aye => (aye.push(who), without(nay, who)),
        Ballot::Nay => (without(aye, who), nay.push(who)),
    }
}

/// Voter sets without duplicates, with no account on both sides, and without
/// the vote's creator.
pub open spec fn sides_wf(aye: Seq<u64>, nay: Seq<u64>, creator: u64) -> bool {
    &&& aye.no_duplicates()
    &&& nay.no_duplicates()
    &&& aye.disjoint(nay)
    &&& !aye.contains(creator)
    &&& !nay.contains(creator)
}

/// Removing `who` from a sequence without duplicates: `who` is gone, every other
/// element stays, nothing is duplicated, and the length drops by one exactly
/// when `who` was there.
pub proof fn lemma_without(s: Seq<u64>, who: u64)
    requires
        s.no_duplicates(),
    ensures
        !without(s, who).contains(who),
        without(s, who).no_duplicates(),
        forall|x: u64| x != who ==> (#[trigger] without(s, who).contains(x) <==> s.contains(x)),
        without(s, who).len() == if s.contains(who) {
            s.len() - 1
        } else {
            s.len() as int
        },
{
    if s.contains(who) {
        let k = s.index_of(who);
        let r = s.remove(k);
        assert forall|x: u64| x != who implies (#[trigger] r.contains(x) <==> s.contains(x)) by {
            if s.contains(x) {
                let j = choose|j: int| 0 <= j < s.len() && s[j] == x;
                if j < k {
                    assert(r[j] == x);
                } else {
                    assert(j != k);
                    assert(r[j - 1] == x);
                }
            }
            if r.contains(x) {
                let j = choose|j: int| 0 <= j < r.len() && r[j] == x;
                if j < k {
                    assert(s[j] == x);
                } else {
                    assert(s[j + 1] == x);
                }
            }
        }
        if r.contains(who) {
            let j = choose|j: int| 0 <= j < r.len() && r[j] == who;
            if j < k {
                assert(s[j] == who);
            } else {
                assert(s[j + 1] == who);
            }
        }
    }
}

/// Casting preserves well-formed voter sets, provided the voter is not the
/// creator and is not already on the requested side.
pub proof fn lemma_sides_after_wf(aye: Seq<u64>, nay: Seq<u64>, creator: u64, who: u64, side: Ballot)
    requires
        sides_wf(aye, nay, creator),
        who != creator,
        !side_of(aye, nay, side).contains(who),
    ensures
        ({
            let (a, n) = sides_after(aye, nay, who, side);
            sides_wf(a, n, creator)
        }),
{
    lemma_without(aye, who);
    lemma_without(nay, who);
    let (a, n) = sides_after(aye, nay, who, side);
    match side {
        Ballot::Aye => {
            assert(a.contains(creator) ==> aye.contains(creator)) by {
                if a.contains(creator) {
                    let j = choose|j: int| 0 <= j < a.len() && a[j] == creator;
                    assert(aye[j] == creator);
                }
            }
            assert(a.disjoint(n)) by {
                assert forall|i: int, j: int| 0 <= i < a.len() && 0 <= j < n.len() implies a[i]
                    != n[j] by {
                    assert(n.contains(n[j]));
                    if i < aye.len() {
                        assert(aye.contains(a[i]));
                        if a[i] == n[j] {
                            assert(nay.contains(a[i]));
                        }
                    }
                }
            }
        },
        Ballot::Nay => {
            assert(n.contains(creator) ==> nay.contains(creator)) by {
                if n.contains(creator) {
                    let j = choose|j: int| 0 <= j < n.len() && n[j] == creator;
                    assert(nay[j] == creator);
                }
            }
            assert(a.disjoint(n)) by {
                assert forall|i: int, j: int| 0 <= i < a.len() && 0 <= j < n.len() implies a[i]
                    != n[j] by {
                    assert(a.contains(a[i]));
                    if j < nay.len() {
                        assert(nay.contains(n[j]));
                        if a[i] == n[j] {
                            assert(aye.contains(n[j]));
                        }
                    }
                }
            }
        },
    }
}

/// Casting adds no account to either side but the voter.
pub proof fn lemma_sides_after_members(aye: Seq<u64>, nay: Seq<u64>, who: u64, side: Ballot)
    requires
        aye.no_duplicates(),
        nay.no_duplicates(),
    ensures
        ({
            let (a, n) = sides_after(aye, nay, who, side);
            forall|x: u64|
                #![trigger a.contains(x)]
                #![trigger n.contains(x)]
                (a.contains(x) || n.contains(x)) ==> (aye.contains(x) || nay.contains(x) || x
                    == who)
        }),
{
    lemma_without(aye, who);
    lemma_without(nay, who);
    let (a, n) = sides_after(aye, nay, who, side);
    assert forall|x: u64| (a.contains(x) || n.contains(x)) implies (aye.contains(x) || nay.contains(
        x,
    ) || x == who) by {
        if x != who {
            match side {
                Ballot::Aye => {
                    if a.contains(x) {
                        let j = choose|j: int| 0 <= j < a.len() && a[j] == x;
                        assert(aye[j] == x);
                    }
                },
                Ballot::Nay => {
                    if n.contains(x) {
                        let j = choose|j: int| 0 <= j < n.len() && n[j] == x;
                        assert(nay[j] == x);
                    }
                },
            }
        }
    }
}

/// Index of `who` in `v`, if present.
fn position(v: &Vec<u64>, who: u64) -> (r: Option<usize>)
    requires
        v@.no_duplicates(),
    ensures
        match r {
            Some(i) => v@.contains(who) && i == v@.index_of(who),
            None => !v@.contains(who),
        },
{
    let mut i: usize = 0;
    while i < v.len()
        invariant
            i <= v.len(),
            v@.no_duplicates(),
            forall|j: int| 0 <= j < i ==> v@[j] != who,
        decreases v.len() - i,
    {
        if v[i] == who {
            assert(v@.contains(who));
            let ghost k = v@.index_of(who);
            assert(v@[k] == v@[i as int]);
            return Some(i);
        }
        i += 1;
    }
    None
}

/// Records that `who` votes `side`: appends `who` to that side's set and takes
/// it off the other side's set if it was there.
pub(crate) fn record_ballot(aye: &mut Vec<u64>, nay: &mut Vec<u64>, who: u64, side: Ballot)
    requires
        old(aye)@.no_duplicates(),
        old(nay)@.no_duplicates(),
    ensures
        (final(aye)@, final(nay)@) == sides_after(old(aye)@, old(nay)@, who, side),
{
    match side {
        Ballot::Aye => {
            if let Some(i) = position(nay, who) {
                nay.remove(i);
            }
            aye.push(who);
        },
        Ballot::Nay => {
            if let Some(i) = position(aye, who) {
                aye.remove(i);
            }
            nay.push(who);
        },
    }
}

/// Whether `who` is in `v`.
pub(crate) fn contains_account(v: &Vec<u64>, who: u64) -> (r: bool)
    ensures
        r == v@.contains(who),
{
    let mut i: usize = 0;
    while i < v.len()
        invariant
            i <= v.len(),
            forall|j: int| 0 <= j < i ==> v@[j] != who,
        decreases v.len() - i,
    {
        if v[i] == who {
            assert(v@[i as int] == who);
            return true;
        }
        i += 1;
    }
    false
}

} // verus!
