use governance::{Ballot, Event, GovError, Governance, LockInfo, TallyResult, LOCK_VOTE, SIMPLE_VOTE};

fn payload(n: usize) -> Vec<u8> {
    vec![7u8; n]
}

fn store_with_vote(vote_type: u8, creator: u64, length: u64, now: u64) -> Governance {
    let mut g = Governance::new();
    let r = g.create_vote(creator, vote_type, length, &payload(4), vec![1, 2, 3], now);
    assert_eq!(r, Ok(Event::Created(creator, 1)));
    g
}

#[test]
fn it_works() {
    let g = Governance::new();
    assert!(true);
    assert_eq!(g.all_vote_count(), 0);
}

#[test]
fn create_assigns_sequential_ids() {
    let mut g = Governance::new();
    assert_eq!(g.create_vote(5, SIMPLE_VOTE, 10, &payload(1), vec![9], 2), Ok(Event::Created(5, 1)));
    assert_eq!(g.create_vote(6, LOCK_VOTE, 3, &payload(1), vec![8], 4), Ok(Event::Created(6, 2)));
    assert_eq!(g.all_vote_count(), 2);
    let v = g.votes(2).unwrap();
    assert_eq!(v.id, 2);
    assert_eq!(v.creator, 6);
    assert_eq!(v.when, 4);
    assert_eq!(v.vote_ends, 7);
    assert!(!v.concluded);
    assert_eq!(v.vote_type, LOCK_VOTE);
    assert_eq!(g.creator_of(1), Some(5));
    assert_eq!(g.creator_of(3), None);
    assert_eq!(g.votes(0), None);
    assert_eq!(g.index_hash(1), Some(vec![9]));
    assert_eq!(g.index_hash(2), Some(vec![8]));
    assert_eq!(g.created_by(5), 1);
    assert_eq!(g.created_by(7), 0);
    assert_eq!(g.created_by_and_index(6, 2), g.votes(2));
    assert_eq!(g.created_by_and_index(5, 2), None);
}

#[test]
fn payload_limit_is_256_bytes() {
    let mut g = Governance::new();
    assert_eq!(
        g.create_vote(1, SIMPLE_VOTE, 10, &payload(257), vec![], 0),
        Err(GovError::PayloadTooLarge)
    );
    assert_eq!(g.all_vote_count(), 0);
    assert_eq!(g.create_vote(1, SIMPLE_VOTE, 10, &payload(256), vec![], 0), Ok(Event::Created(1, 1)));
}

#[test]
fn create_rejects_empty_period_and_overflow() {
    let mut g = Governance::new();
    assert_eq!(g.create_vote(1, SIMPLE_VOTE, 0, &payload(0), vec![], 5), Err(GovError::EmptyVotingPeriod));
    assert_eq!(g.create_vote(1, SIMPLE_VOTE, 2, &payload(0), vec![], u64::MAX - 1), Err(GovError::Overflow));
    assert_eq!(g.create_vote(1, SIMPLE_VOTE, 1, &payload(0), vec![], u64::MAX - 1), Ok(Event::Created(1, 1)));
    assert_eq!(g.votes(1).unwrap().vote_ends, u64::MAX);
}

#[test]
fn same_side_twice_fails_and_leaves_set() {
    let mut g = store_with_vote(SIMPLE_VOTE, 1, 10, 0);
    assert_eq!(g.cast_ballot(2, 1, Ballot::Aye, 3), Ok(Event::Voted(2, 1, Ballot::Aye)));
    assert_eq!(g.cast_ballot(2, 1, Ballot::Aye, 4), Err(GovError::AlreadyVoted));
    assert_eq!(g.voted_accounts(1, Ballot::Aye), vec![2]);
    assert_eq!(g.voted_accounts(1, Ballot::Nay), Vec::<u64>::new());
}

#[test]
fn switching_sides_moves_voter() {
    let mut g = store_with_vote(SIMPLE_VOTE, 1, 10, 0);
    assert!(g.cast_ballot(2, 1, Ballot::Aye, 1).is_ok());
    assert!(g.cast_ballot(3, 1, Ballot::Aye, 1).is_ok());
    assert!(g.cast_ballot(4, 1, Ballot::Nay, 1).is_ok());
    assert_eq!(g.cast_ballot(2, 1, Ballot::Nay, 2), Ok(Event::Voted(2, 1, Ballot::Nay)));
    assert_eq!(g.voted_accounts(1, Ballot::Aye), vec![3]);
    assert_eq!(g.voted_accounts(1, Ballot::Nay), vec![4, 2]);
    for id in [2u64, 3, 4] {
        let aye = g.voted_accounts(1, Ballot::Aye);
        let nay = g.voted_accounts(1, Ballot::Nay);
        assert!(!(aye.contains(&id) && nay.contains(&id)));
    }
}

#[test]
fn ballot_errors() {
    let mut g = store_with_vote(SIMPLE_VOTE, 1, 10, 0);
    assert_eq!(g.cast_ballot(2, 9, Ballot::Aye, 1), Err(GovError::NoSuchVote));
    assert_eq!(g.cast_ballot(2, 1, Ballot::Aye, 10), Err(GovError::VoteExpired));
    assert_eq!(g.cast_lockvote(2, 1, Ballot::Aye, 1, 20, 1, 100), Err(GovError::NotLockVote));
    let mut l = store_with_vote(LOCK_VOTE, 1, 10, 0);
    assert_eq!(l.cast_ballot(2, 1, Ballot::Aye, 1), Err(GovError::NotSimpleVote));
}

#[test]
fn creator_cannot_vote() {
    let mut g = store_with_vote(SIMPLE_VOTE, 1, 10, 0);
    assert_eq!(g.cast_ballot(1, 1, Ballot::Aye, 1), Err(GovError::OwnVote));
    assert_eq!(g.cast_ballot(1, 1, Ballot::Nay, 1), Err(GovError::OwnVote));
    assert_eq!(g.cast_lockvote(1, 1, Ballot::Aye, 1, 20, 1, 100), Err(GovError::OwnVote));
    let mut l = store_with_vote(LOCK_VOTE, 1, 10, 0);
    assert_eq!(l.cast_lockvote(1, 1, Ballot::Nay, 1, 20, 1, 100), Err(GovError::OwnVote));
    assert_eq!(l.cast_ballot(1, 1, Ballot::Aye, 1), Err(GovError::OwnVote));
    assert_eq!(l.voted_accounts(1, Ballot::Aye), Vec::<u64>::new());
}

#[test]
fn conclude_gated_on_expiry_and_once() {
    let mut g = store_with_vote(SIMPLE_VOTE, 1, 5, 0);
    assert_eq!(g.conclude_vote(1, 4), Err(GovError::NotExpired));
    assert_eq!(g.conclude_vote(1, 5), Err(GovError::NotExpired));
    assert_eq!(g.vote_results(1), None);
    assert_eq!(g.conclude_vote(1, 6), Ok(Event::Concluded(1)));
    assert!(g.votes(1).unwrap().concluded);
    assert_eq!(g.conclude_vote(1, 7), Err(GovError::AlreadyConcluded));
    assert_eq!(g.conclude_vote(2, 7), Err(GovError::NoSuchVote));
}

#[test]
fn simple_tally_counts_accounts() {
    let mut g = store_with_vote(SIMPLE_VOTE, 1, 5, 0);
    for voter in [2u64, 3, 4] {
        assert!(g.cast_ballot(voter, 1, Ballot::Aye, 1).is_ok());
    }
    for voter in [5u64, 6] {
        assert!(g.cast_ballot(voter, 1, Ballot::Nay, 1).is_ok());
    }
    assert!(g.conclude_vote(1, 6).is_ok());
    assert_eq!(g.vote_results(1), Some(TallyResult { aye_weight: 3, nay_weight: 2 }));
}

#[test]
fn lock_tally_weights_each_side() {
    let mut g = store_with_vote(LOCK_VOTE, 1, 3, 0);
    assert_eq!(g.cast_lockvote(2, 1, Ballot::Aye, 10, 5, 0, 100), Ok(Event::Voted(2, 1, Ballot::Aye)));
    assert_eq!(g.cast_lockvote(3, 1, Ballot::Nay, 4, 3, 0, 100), Ok(Event::Voted(3, 1, Ballot::Nay)));
    assert_eq!(g.lock_info(1, 2), Some(LockInfo { deposit: 10, duration: 5, until: 5 }));
    assert!(g.conclude_vote(1, 4).is_ok());
    assert_eq!(g.vote_results(1), Some(TallyResult { aye_weight: 50, nay_weight: 12 }));
}

#[test]
fn lock_tally_overflow_is_rejected() {
    let mut g = store_with_vote(LOCK_VOTE, 1, 3, 0);
    assert!(g.cast_lockvote(2, 1, Ballot::Aye, u64::MAX - 1, 4, 0, u64::MAX).is_ok());
    assert_eq!(g.conclude_vote(1, 4), Err(GovError::Overflow));
    assert!(!g.votes(1).unwrap().concluded);
}

#[test]
fn unknown_vote_type_cannot_be_tallied() {
    let mut g = store_with_vote(7, 1, 3, 0);
    assert_eq!(g.conclude_vote(1, 4), Err(GovError::UnsupportedVoteType));
    assert_eq!(g.vote_results(1), None);
}

#[test]
fn lockvote_errors() {
    let mut g = store_with_vote(LOCK_VOTE, 1, 10, 0);
    assert_eq!(g.cast_lockvote(2, 1, Ballot::Aye, 5, 9, 0, 100), Err(GovError::LockTooShort));
    assert_eq!(g.cast_lockvote(2, 1, Ballot::Aye, 5, u64::MAX, 1, 100), Err(GovError::Overflow));
    assert_eq!(g.cast_lockvote(2, 1, Ballot::Aye, 100, 10, 0, 100), Err(GovError::InsufficientBalance));
    assert_eq!(g.cast_lockvote(2, 1, Ballot::Aye, 99, 10, 0, 100), Ok(Event::Voted(2, 1, Ballot::Aye)));
    assert_eq!(g.cast_lockvote(2, 1, Ballot::Nay, 1, 20, 2, 100), Err(GovError::AlreadyLocked));
    assert_eq!(g.cast_lockvote(2, 1, Ballot::Aye, 1, 20, 10, 100), Err(GovError::VoteExpired));
    assert_eq!(g.voted_accounts(1, Ballot::Aye), vec![2]);
    assert_eq!(g.lock_info(1, 2), Some(LockInfo { deposit: 99, duration: 10, until: 10 }));
}

#[test]
fn withdraw_gated_on_conclusion_and_release() {
    let mut g = store_with_vote(LOCK_VOTE, 1, 3, 0);
    assert!(g.cast_lockvote(2, 1, Ballot::Aye, 10, 3, 0, 100).is_ok());
    assert!(g.cast_lockvote(3, 1, Ballot::Nay, 10, 8, 0, 100).is_ok());
    assert_eq!(g.withdraw(2, 1, 5), Err(GovError::NotConcluded));
    assert!(g.conclude_vote(1, 4).is_ok());
    assert_eq!(g.withdraw(3, 1, 8), Err(GovError::LockNotOver));
    assert_eq!(g.withdraw(4, 1, 9), Err(GovError::NoLock));
    assert_eq!(g.withdraw(2, 1, 5), Ok(Event::Withdrew(2, 1)));
    assert_eq!(g.lock_info(1, 2), None);
    assert_eq!(g.withdraw(2, 1, 6), Err(GovError::NoLock));
    assert_eq!(g.withdraw(3, 1, 9), Ok(Event::Withdrew(3, 1)));
    assert_eq!(g.vote_results(1), Some(TallyResult { aye_weight: 30, nay_weight: 80 }));
}

#[test]
fn withdraw_needs_lock_vote() {
    let mut g = store_with_vote(SIMPLE_VOTE, 1, 3, 0);
    assert!(g.conclude_vote(1, 4).is_ok());
    assert_eq!(g.withdraw(2, 1, 9), Err(GovError::NotLockVote));
    assert_eq!(g.withdraw(2, 2, 9), Err(GovError::NoSuchVote));
}
