//! A governance voting engine: proposals, simple and lock-weighted ballots,
//! conclusion after expiry with a weighted tally, and withdrawal of locked
//! deposits.
//!
//! The engine is a pure state machine. The host hands in the current height, the
//! digest of a proposal's payload, and for lock-weighted ballots the voter's free
//! balance; each successful operation returns the notification to emit. Placing
//! and removing token locks is left to the host, which does so exactly when the
//! corresponding operation succeeds.
pub mod ballot;
pub mod laws;
pub mod store;
pub mod tally;
mod types;

pub use store::{created_count, GovView, Governance, VoteModel};
pub use types::{
    Ballot, Event, GovError, LockInfo, TallyResult, Vote, LOCK_VOTE, MAX_PAYLOAD_LEN, SIMPLE_VOTE,
};
