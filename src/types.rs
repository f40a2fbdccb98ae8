use vstd::prelude::*;

verus! {

/// Largest accepted proposal payload, in bytes.
pub const MAX_PAYLOAD_LEN: usize = 256;

/// Vote type tag of a one-account-one-ballot vote.
pub const SIMPLE_VOTE: u8 = 0;

/// Vote type tag of a vote weighted by deposit times lock duration.
pub const LOCK_VOTE: u8 = 1;

/// A proposal record.
#[derive(Clone, Copy, Debug, PartialEq, Eq, Structural)]
pub struct Vote {
    /// Sequential identifier, starting at 1.
    pub id: u64,
    pub creator: u64,
    /// Height at which the vote was created.
    pub when: u64,
    /// Expiry height: ballots are accepted strictly before it, conclusion
    /// strictly after it.
    pub vote_ends: u64,
    pub concluded: bool,
    /// `SIMPLE_VOTE`, `LOCK_VOTE`, or another tag that no protocol accepts.
    pub vote_type: u8,
}

/// The side of a ballot.
#[derive(Clone, Copy, Debug, PartialEq, Eq, Structural)]
pub enum Ballot {
    Aye,
    Nay,
}

/// The lock a voter placed on a lock-weighted vote.
#[derive(Clone, Copy, Debug, PartialEq, Eq, Structural)]
pub struct LockInfo {
    pub deposit: u64,
    pub duration: u64,
    /// Release height: the cast height plus `duration`.
    pub until: u64,
}

/// Per-side weights, written once when a vote concludes.
#[derive(Clone, Copy, Debug, PartialEq, Eq, Structural)]
pub struct TallyResult {
    pub aye_weight: u64,
    pub nay_weight: u64,
}

/// Notification emitted by a successful operation.
#[derive(Clone, Copy, Debug, PartialEq, Eq, Structural)]
pub enum Event {
    /// (creator, vote id)
    Created(u64, u64),
    /// (voter, vote id, side)
    Voted(u64, u64, Ballot),
    /// vote id
    Concluded(u64),
    /// (voter, vote id)
    Withdrew(u64, u64),
}

/// Why an operation was rejected. A rejected operation changes nothing.
#[derive(Clone, Copy, Debug, PartialEq, Eq, Structural)]
pub enum GovError {
    /// The proposal payload is longer than `MAX_PAYLOAD_LEN`.
    PayloadTooLarge,
    /// A vote must stay open for at least one height.
    EmptyVotingPeriod,
    /// A counter, a height or a weight does not fit in 64 bits.
    Overflow,
    NoSuchVote,
    /// The creator of a vote cannot cast a ballot on it.
    OwnVote,
    /// Ballots are accepted only strictly before the expiry height.
    VoteExpired,
    /// Simple casting was used on a vote that is not a simple vote.
    NotSimpleVote,
    /// Lock casting or withdrawal was used on a vote that is not lock-weighted.
    NotLockVote,
    /// The voter is already recorded on the requested side.
    AlreadyVoted,
    /// The lock would be released before the vote expires.
    LockTooShort,
    /// The voter already locked a deposit on this vote.
    AlreadyLocked,
    /// The deposit is not strictly below the voter's free balance.
    InsufficientBalance,
    AlreadyConcluded,
    /// Conclusion is possible only strictly after the expiry height.
    NotExpired,
    /// The vote's type tag has no tally rule.
    UnsupportedVoteType,
    NotConcluded,
    /// The voter holds no lock on this vote.
    NoLock,
    /// The lock's release height has not passed yet.
    LockNotOver,
}

} // verus!
