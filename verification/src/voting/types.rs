//! The values that the voting pallet stores.
use vstd::prelude::*;

verus! {

/// The tokens staked for a vote, and the proposal it is for.
#[derive(Default, Debug, Clone, PartialEq)]
pub struct VoteAllocated<Currency, Hash, Conviction> {
    pub allocation: Currency,
    pub proposal: Hash,
    pub vote: Votes<Conviction>,
}

/// A vote: for or against, with the conviction behind it.
#[derive(Debug, Eq, PartialEq, Clone, Default)]
pub struct Votes<Conviction> {
    pub vote: bool,
    pub conviction: Conviction,
}

/// The number of votes cast for a proposal.
#[derive(Debug, Clone, PartialEq, Ord, Eq, PartialOrd)]
pub struct VoteNumbers<Hash> {
    pub number_of_votes: u128,
    pub proposal: Hash,
}

/// How long the tokens behind a vote stay locked.
#[derive(Copy, Clone, Eq, PartialEq, Ord, PartialOrd, Debug, Default)]
pub enum Conviction {
    /// No lock: the tokens stay free.
    #[default]
    Unlocked,
    Locked1x,
    Locked2x,
}

/// The phase that the vote is in.
#[derive(Copy, Clone, Debug, PartialEq, Eq)]
pub enum Phase {
    ProposalPhase,
    VotingPhase,
}

} // verus!
