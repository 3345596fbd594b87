//! The values that the NFT voting pallet stores.
use vstd::prelude::*;
use frame_support::BoundedVec;

verus! {

/// A vote and the proposal it is for.
#[derive(Default, Debug, Clone, PartialEq)]
pub struct VoteAllocated<Hash, Conviction, CollectionId, ItemId> {
    pub proposal: Hash,
    pub vote: Votes<Conviction, CollectionId, ItemId>,
}

/// A proposal: its title, its author, what it is about and the department
/// it concerns, each text a bounded list of `u32` values.
#[verifier::reject_recursive_types(M)]
pub struct Proposal<AccountId, M> {
    pub title: BoundedVec<u32, M>,
    pub author: AccountId,
    pub about: BoundedVec<u32, M>,
    pub department: BoundedVec<u32, M>,
}

/// A vote: for or against, with the conviction behind it and the NFT
/// (collection and item) it is cast with.
#[derive(Debug, Eq, PartialEq, Clone, Default)]
pub struct Votes<Conviction, CollectionId, ItemId> {
    pub vote: bool,
    pub conviction: Conviction,
    pub collection: CollectionId,
    pub item: ItemId,
}

/// The number of votes cast for a proposal.
#[derive(Debug, Clone, PartialEq, Ord, Eq, PartialOrd)]
pub struct VoteNumbers<Hash> {
    pub number_of_votes: u128,
    pub proposal: Hash,
}

/// How long the tokens behind a vote stay locked.
#[derive(Copy, Clone, Eq, PartialEq, Ord, PartialOrd, Debug, Default)]
pub enum Conviction {
    /// No lock: the tokens stay free.
    #[default]
    Unlocked,
    Locked1x,
    Locked2x,
}

/// The phase that the vote is in.
#[derive(Copy, Clone, Debug, PartialEq, Eq)]
pub enum Phase {
    ProposalPhase,
    VotingPhase,
    Expired,
    Accepted,
    Aborted,
}

} // verus!
