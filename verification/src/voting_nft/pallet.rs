//! The NFT voting pallet: signed callers register each voter once, and a
//! registered voter's proposal is checked while the vote is in its proposal
//! phase.
//!
//! `Pallet` holds the pallet's storage items; each dispatchable call reads
//! and writes them and records the events it deposits.
use vstd::prelude::*;
use frame_support::BoundedVec;
use frame_support::traits::ConstU32;
use crate::origin::{Origin, DispatchError, DispatchResult, ensure_signed};
use crate::storage::{KeyedStore, StorageKey};
use super::types::{Phase, VoteNumbers};

verus! {

/// A proposal is the hash of its text, which is all that makes it unique.
pub type ProposalID = [u8; 32];

/// A number of votes.
pub type VoteCount = u128;

/// The votes that a registered voter has cast, at most 100 of them.
pub type VoteInNumbers = BoundedVec<VoteNumbers<ProposalID>, ConstU32<100>>;

/// The items held by a bounded list of cast votes, in order.
pub uninterp spec fn nft_vote_numbers(
    v: BoundedVec<VoteNumbers<[u8; 32]>, ConstU32<100>>,
) -> Seq<VoteNumbers<[u8; 32]>>;

/// `BoundedVec::default` of the support library. Its source builds the value
/// from an empty `Vec`, so the list holds no item.
#[verifier::external_body]
fn empty_vote_numbers() -> (r: VoteInNumbers)
    ensures
        nft_vote_numbers(r) == Seq::<VoteNumbers<ProposalID>>::empty(),
{
    <VoteInNumbers as Default>::default()
}

/// The phase that the pallet starts in.
#[allow(non_snake_case)]
pub fn PhaseStart() -> (p: Phase)
    ensures
        p == Phase::ProposalPhase,
{
    Phase::ProposalPhase
}

/// What the pallet tells the outside world.
#[derive(Clone, Copy, Debug, PartialEq, Eq)]
pub enum Event<AccountId> {
    /// `who` was registered as a voter.
    VoterRegistered { who: AccountId },
}

/// Why the pallet refused a call.
#[derive(Clone, Copy, Debug, PartialEq, Eq)]
pub enum Error {
    NoneValue,
    StorageOverflow,
    /// The account is a registered voter already.
    AccountAlreadyRegistered,
    /// The call needs the proposal phase.
    WrongPhaseError,
    /// The caller is not a registered voter.
    NotRegisteredError,
    /// The caller has submitted a proposal already.
    ProposalMultipleByOneError,
    ProposalLimitReachedError,
    ProposalDuplicateError,
    ProposalSubmitted,
    VoteForSameProposalError,
    OverflowError,
    ConversionError,
    VoteForNonExistentProposalError,
    VoteAllocationZeroError,
    VoteWithInsufficientFundsError,
}

/// The pallet's storage.
#[verifier::reject_recursive_types(AccountId)]
pub struct Pallet<AccountId> {
    registered_voters_with_votes: KeyedStore<AccountId, VoteInNumbers>,
    proposals: KeyedStore<ProposalID, VoteCount>,
    in_phase: Phase,
    total_proposals: u32,
    proposal_creators: KeyedStore<AccountId, ()>,
    events: Vec<Event<AccountId>>,
}

/// The pallet's storage as mathematical values.
#[verifier::ext_equal]
#[verifier::reject_recursive_types(AccountId)]
pub struct PalletState<AccountId> {
    /// The registered voters, each with the votes it has cast.
    pub voters: Map<AccountId, Seq<VoteNumbers<ProposalID>>>,
    /// The stored proposals, each with its number of votes.
    pub proposals: Map<ProposalID, VoteCount>,
    /// The phase the vote is in.
    pub phase: Phase,
    /// The proposal counter.
    pub total: u32,
    /// The accounts that have submitted a proposal.
    pub creators: Set<AccountId>,
    /// The events deposited, oldest first.
    pub events: Seq<Event<AccountId>>,
}

impl<AccountId> View for Pallet<AccountId> {
    type V = PalletState<AccountId>;

    closed spec fn view(&self) -> PalletState<AccountId> {
        PalletState {
            voters: Map::new(
                |a: AccountId| self.registered_voters_with_votes@.dom().contains(a),
                |a: AccountId| nft_vote_numbers(self.registered_voters_with_votes@[a]),
            ),
            proposals: self.proposals@,
            phase: self.in_phase,
            total: self.total_proposals,
            creators: self.proposal_creators@.dom(),
            events: self.events@,
        }
    }
}

impl<AccountId> PalletState<AccountId> {
    /// The storage of a new chain.
    pub open spec fn genesis() -> PalletState<AccountId> {
        PalletState {
            voters: Map::empty(),
            proposals: Map::empty(),
            phase: Phase::ProposalPhase,
            total: 0,
            creators: Set::empty(),
            events: Seq::empty(),
        }
    }

    /// What `register_voter` returns.
    pub open spec fn register_voter_result(self, origin: Origin<AccountId>, who: AccountId) -> DispatchResult<
        Error,
    > {
        if !(origin is Signed) {
            Err(DispatchError::BadOrigin)
        } else if self.voters.dom().contains(who) {
            Err(DispatchError::Module(Error::AccountAlreadyRegistered))
        } else {
            Ok(())
        }
    }

    /// The storage after `register_voter`.
    pub open spec fn after_register_voter(self, origin: Origin<AccountId>, who: AccountId) -> PalletState<AccountId> {
        if self.register_voter_result(origin, who) is Ok {
            PalletState {
                voters: self.voters.insert(who, Seq::empty()),
                events: self.events.push(Event::VoterRegistered { who }),
                ..self
            }
        } else {
            self
        }
    }

    /// What `submit_proposal` returns: the first of its checks that fails,
    /// in the order in which it makes them.
    pub open spec fn submit_proposal_result(self, origin: Origin<AccountId>) -> DispatchResult<Error> {
        match origin {
            Origin::Signed(who) => if self.phase != Phase::ProposalPhase {
                Err(DispatchError::Module(Error::WrongPhaseError))
            } else if !self.voters.dom().contains(who) {
                Err(DispatchError::Module(Error::NotRegisteredError))
            } else if self.creators.contains(who) {
                Err(DispatchError::Module(Error::ProposalMultipleByOneError))
            } else {
                Ok(())
            },
            _ => Err(DispatchError::BadOrigin),
        }
    }
}

impl<AccountId: StorageKey + Copy> Pallet<AccountId> {
    /// The storage of a new chain: no voter, no proposal, the proposal
    /// phase, and a counter at zero.
    pub fn new() -> (s: Self)
        ensures
            s@ == PalletState::<AccountId>::genesis(),
    {
        let s = Pallet {
            registered_voters_with_votes: KeyedStore::new(),
            proposals: KeyedStore::new(),
            in_phase: PhaseStart(),
            total_proposals: 0u32,
            proposal_creators: KeyedStore::new(),
            events: Vec::new(),
        };
        assert(s@ =~= PalletState::<AccountId>::genesis());
        s
    }

    /// Registers `who` as a voter with no votes cast, once for each account;
    /// the call must be dispatched by a signed extrinsic.
    pub fn register_voter(&mut self, origin: Origin<AccountId>, who: AccountId) -> (r: DispatchResult<Error>)
        ensures
            r == old(self)@.register_voter_result(origin, who),
            final(self)@ == old(self)@.after_register_voter(origin, who),
    {
        if ensure_signed(origin).is_err() {
            return Err(DispatchError::BadOrigin);
        }
        if self.registered_voters_with_votes.get(&who).is_some() {
            return Err(DispatchError::Module(Error::AccountAlreadyRegistered));
        }
        let ghost pre = self@;
        let votes = empty_vote_numbers();
        self.registered_voters_with_votes.insert(who, votes);
        self.events.push(Event::VoterRegistered { who });
        assert(self@ =~= pre.after_register_voter(origin, who));
        Ok(())
    }

    /// Checks, in this order, that the call is signed, that the vote is in
    /// its proposal phase, that the caller is a registered voter, and that
    /// it has not submitted a proposal before. The proposal's title, subject
    /// and department are not stored: the storage is left as it was.
    pub fn submit_proposal<M>(
        &mut self,
        origin: Origin<AccountId>,
        title: BoundedVec<u32, M>,
        about: BoundedVec<u32, M>,
        department: BoundedVec<u32, M>,
    ) -> (r: DispatchResult<Error>)
        ensures
            r == old(self)@.submit_proposal_result(origin),
            final(self)@ == old(self)@,
    {
        let who = match ensure_signed(origin) {
            Ok(who) => who,
            Err(_) => return Err(DispatchError::BadOrigin),
        };
        if !self.is_proposal_phase() {
            return Err(DispatchError::Module(Error::WrongPhaseError));
        }
        if !self.is_registered(&who) {
            return Err(DispatchError::Module(Error::NotRegisteredError));
        }
        if self.created_proposal_already(&who) {
            return Err(DispatchError::Module(Error::ProposalMultipleByOneError));
        }
        Ok(())
    }

    /// The votes cast by `who`, if `who` is a registered voter.
    pub fn registered_voters_with_votes(&self, who: &AccountId) -> (r: Option<&VoteInNumbers>)
        ensures
            match r {
                Some(v) => self@.voters.dom().contains(*who) && nft_vote_numbers(*v)
                    == self@.voters[*who],
                None => !self@.voters.dom().contains(*who),
            },
    {
        self.registered_voters_with_votes.get(who)
    }

    /// The number of votes for `proposal`, if it is stored.
    pub fn get_proposals(&self, proposal: &ProposalID) -> (r: Option<VoteCount>)
        ensures
            match r {
                Some(n) => self@.proposals.dom().contains(*proposal) && n == self@.proposals[*proposal],
                None => !self@.proposals.dom().contains(*proposal),
            },
    {
        match self.proposals.get(proposal) {
            Some(n) => Some(*n),
            None => None,
        }
    }

    /// The phase the vote is in.
    pub fn get_current_phase(&self) -> (r: Phase)
        ensures
            r == self@.phase,
    {
        self.in_phase
    }

    /// The proposal counter.
    pub fn total_proposals(&self) -> (r: u32)
        ensures
            r == self@.total,
    {
        self.total_proposals
    }

    /// `Some(())` if `who` has submitted a proposal.
    pub fn proposal_creators(&self, who: &AccountId) -> (r: Option<()>)
        ensures
            r is Some == self@.creators.contains(*who),
    {
        match self.proposal_creators.get(who) {
            Some(_) => Some(()),
            None => None,
        }
    }

    /// The events deposited so far, oldest first.
    pub fn events(&self) -> (r: &Vec<Event<AccountId>>)
        ensures
            r@ == self@.events,
    {
        &self.events
    }

    /// Puts the vote in `phase`, as a write of the phase storage item does.
    pub fn set_in_phase(&mut self, phase: Phase)
        ensures
            final(self)@ == (PalletState { phase, ..old(self)@ }),
    {
        self.in_phase = phase;
    }

    /// Records `who` as the creator of a proposal, as a write of the
    /// proposal creators storage item does.
    pub fn insert_proposal_creator(&mut self, who: AccountId)
        ensures
            final(self)@ == (PalletState { creators: old(self)@.creators.insert(who), ..old(self)@ }),
    {
        let ghost pre = self@;
        self.proposal_creators.insert(who, ());
        assert(self@ =~= (PalletState { creators: pre.creators.insert(who), ..pre }));
    }

    /// Stores `proposal` with `votes` votes, as a write of the proposals
    /// storage item does.
    pub fn insert_proposal(&mut self, proposal: ProposalID, votes: VoteCount)
        ensures
            final(self)@ == (PalletState {
                proposals: old(self)@.proposals.insert(proposal, votes),
                ..old(self)@
            }),
    {
        self.proposals.insert(proposal, votes);
    }

    /// Whether `who` is a registered voter.
    pub fn is_registered(&self, who: &AccountId) -> (r: bool)
        ensures
            r == self@.voters.dom().contains(*who),
    {
        self.registered_voters_with_votes.contains_key(who)
    }

    /// Whether `who` has submitted a proposal.
    pub fn created_proposal_already(&self, who: &AccountId) -> (r: bool)
        ensures
            r == self@.creators.contains(*who),
    {
        self.proposal_creators.contains_key(who)
    }

    /// Whether `proposal` is stored.
    pub fn proposal_exists(&self, proposal: &ProposalID) -> (r: bool)
        ensures
            r == self@.proposals.dom().contains(*proposal),
    {
        self.proposals.contains_key(proposal)
    }

    /// The proposal counter.
    pub fn get_total(&self) -> (r: u32)
        ensures
            r == self@.total,
    {
        self.total_proposals
    }

    /// Whether the vote is in its proposal phase.
    pub fn is_proposal_phase(&self) -> (r: bool)
        ensures
            r == (self@.phase == Phase::ProposalPhase),
    {
        match self.in_phase {
            Phase::ProposalPhase => true,
            _ => false,
        }
    }
}

} // verus!
