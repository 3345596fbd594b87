//! The voting pallet: signed callers register voters, and each registered voter
//! may submit one proposal while the vote is in its proposal phase.
//!
//! `Pallet` holds the pallet's storage items; each dispatchable call reads
//! and writes them and records the events it deposits.
use vstd::prelude::*;
use frame_support::BoundedVec;
use frame_support::traits::ConstU32;
use crate::origin::{Origin, DispatchError, DispatchResult, ensure_signed};
use crate::storage::{KeyedStore, StorageKey};
use super::types::{Phase, VoteNumbers};
use super::laws::{
    lemma_genesis_consistent, lemma_register_voter_keeps_consistency,
    lemma_submit_proposal_keeps_consistency,
};

verus! {

/// A proposal is the hash of its text, which is all that makes it unique.
pub type ProposalID = [u8; 32];

/// A number of votes.
pub type VoteCount = u128;

/// The votes that a registered voter has cast, at most 100 of them.
pub type VoteInNumbers = BoundedVec<VoteNumbers<ProposalID>, ConstU32<100>>;

/// The most proposals that the pallet accepts.
pub const MAX_PROPOSALS: u32 = 100;

/// The items held by a bounded list of cast votes, in order.
pub uninterp spec fn vote_numbers(
    v: BoundedVec<VoteNumbers<[u8; 32]>, ConstU32<100>>,
) -> Seq<VoteNumbers<[u8; 32]>>;

/// `BoundedVec::default` of the support library. Its source builds the value
/// from an empty `Vec`, so the list holds no item.
#[verifier::external_body]
fn empty_vote_numbers() -> (r: VoteInNumbers)
    ensures
        vote_numbers(r) == Seq::<VoteNumbers<ProposalID>>::empty(),
{
    <VoteInNumbers as Default>::default()
}

/// The phase that the pallet starts in.
#[allow(non_snake_case)]
pub fn PhaseStart() -> (p: Phase)
    ensures
        p == Phase::ProposalPhase,
{
    Phase::ProposalPhase
}

/// The number of proposals that the pallet starts with.
#[allow(non_snake_case)]
pub fn CounterStart() -> (c: u32)
    ensures
        c == 0,
{
    0u32
}

/// What the pallet tells the outside world.
#[derive(Clone, Copy, Debug, PartialEq, Eq)]
pub enum Event<AccountId> {
    /// `who` was registered as a voter.
    VoterRegistered { who: AccountId },
    /// `who` submitted `proposal`.
    ProposalSubmitted { proposal: ProposalID, who: AccountId },
}

/// Why the pallet refused a call.
#[derive(Clone, Copy, Debug, PartialEq, Eq)]
pub enum Error {
    NoneValue,
    StorageOverflow,
    /// The call needs the proposal phase.
    WrongPhaseError,
    /// The caller is not a registered voter.
    NotRegisteredError,
    /// The caller has submitted a proposal already.
    ProposalMultipleByOneError,
    /// The pallet holds the most proposals it accepts.
    ProposalLimitReachedError,
    /// The proposal has been submitted already.
    ProposalDuplicateError,
    ProposalSubmitted,
}

/// The pallet's storage.
#[verifier::reject_recursive_types(AccountId)]
pub struct Pallet<AccountId> {
    registered_voters_with_votes: KeyedStore<AccountId, VoteInNumbers>,
    proposals: KeyedStore<ProposalID, VoteCount>,
    in_phase: Phase,
    total_proposals: u32,
    proposal_creators: KeyedStore<AccountId, ()>,
    events: Vec<Event<AccountId>>,
}

/// The pallet's storage as mathematical values.
#[verifier::ext_equal]
#[verifier::reject_recursive_types(AccountId)]
pub struct PalletState<AccountId> {
    /// The registered voters, each with the votes it has cast.
    pub voters: Map<AccountId, Seq<VoteNumbers<ProposalID>>>,
    /// The submitted proposals, each with its number of votes.
    pub proposals: Map<ProposalID, VoteCount>,
    /// The phase the vote is in.
    pub phase: Phase,
    /// The number of proposals submitted.
    pub total: u32,
    /// The accounts that have submitted a proposal.
    pub creators: Set<AccountId>,
    /// The events deposited, oldest first.
    pub events: Seq<Event<AccountId>>,
}

impl<AccountId> View for Pallet<AccountId> {
    type V = PalletState<AccountId>;

    closed spec fn view(&self) -> PalletState<AccountId> {
        PalletState {
            voters: Map::new(
                |a: AccountId| self.registered_voters_with_votes@.dom().contains(a),
                |a: AccountId| vote_numbers(self.registered_voters_with_votes@[a]),
            ),
            proposals: self.proposals@,
            phase: self.in_phase,
            total: self.total_proposals,
            creators: self.proposal_creators@.dom(),
            events: self.events@,
        }
    }
}

impl<AccountId> PalletState<AccountId> {
    /// The storage of a new chain.
    pub open spec fn genesis() -> PalletState<AccountId> {
        PalletState {
            voters: Map::empty(),
            proposals: Map::empty(),
            phase: Phase::ProposalPhase,
            total: 0,
            creators: Set::empty(),
            events: Seq::empty(),
        }
    }

    /// What `register_voter` returns.
    pub open spec fn register_voter_result(self, origin: Origin<AccountId>) -> DispatchResult<
        Error,
    > {
        if origin is Signed {
            Ok(())
        } else {
            Err(DispatchError::BadOrigin)
        }
    }

    /// The storage after `register_voter`.
    pub open spec fn after_register_voter(self, origin: Origin<AccountId>, who: AccountId) -> PalletState<AccountId> {
        if origin is Signed {
            PalletState {
                voters: self.voters.insert(who, Seq::empty()),
                events: self.events.push(Event::VoterRegistered { who }),
                ..self
            }
        } else {
            self
        }
    }

    /// The first check that a proposal `text` from the signed account `who`
    /// fails, in the order in which `submit_proposal` makes them.
    pub open spec fn submit_refusal(self, who: AccountId, text: ProposalID) -> Option<Error> {
        if self.phase != Phase::ProposalPhase {
            Some(Error::WrongPhaseError)
        } else if !self.voters.dom().contains(who) {
            Some(Error::NotRegisteredError)
        } else if self.creators.contains(who) {
            Some(Error::ProposalMultipleByOneError)
        } else if self.total >= MAX_PROPOSALS {
            Some(Error::ProposalLimitReachedError)
        } else if self.proposals.dom().contains(text) {
            Some(Error::ProposalDuplicateError)
        } else {
            None
        }
    }

    /// What `submit_proposal` returns.
    pub open spec fn submit_proposal_result(self, origin: Origin<AccountId>, text: ProposalID) -> DispatchResult<
        Error,
    > {
        match origin {
            Origin::Signed(who) => match self.submit_refusal(who, text) {
                Some(e) => Err(DispatchError::Module(e)),
                None => Ok(()),
            },
            _ => Err(DispatchError::BadOrigin),
        }
    }

    /// The storage after `submit_proposal`.
    pub open spec fn after_submit_proposal(self, origin: Origin<AccountId>, text: ProposalID) -> PalletState<AccountId> {
        match origin {
            Origin::Signed(who) => if self.submit_refusal(who, text) is None {
                PalletState {
                    proposals: self.proposals.insert(text, 0),
                    total: (self.total + 1) as u32,
                    creators: self.creators.insert(who),
                    events: self.events.push(Event::ProposalSubmitted { proposal: text, who }),
                    ..self
                }
            } else {
                self
            },
            _ => self,
        }
    }

    /// The storage agrees with itself: the counter counts the proposals,
    /// each proposal has its own creator, a registered voter, no proposal
    /// has votes yet, and the counter is within the limit.
    pub open spec fn consistent(self) -> bool {
        &&& self.proposals.dom().finite()
        &&& self.creators.finite()
        &&& self.proposals.dom().len() == self.total
        &&& self.creators.len() == self.total
        &&& self.total <= MAX_PROPOSALS
        &&& self.creators.subset_of(self.voters.dom())
        &&& forall|p: ProposalID| #[trigger] self.proposals.dom().contains(p) ==> self.proposals[p]
            == 0
    }
}

impl<AccountId: StorageKey + Copy> Pallet<AccountId> {
    /// The storage of a new chain: no voter, no proposal, the proposal
    /// phase, and a counter at zero.
    pub fn new() -> (s: Self)
        ensures
            s@ == PalletState::<AccountId>::genesis(),
            s@.consistent(),
    {
        proof {
            lemma_genesis_consistent::<AccountId>();
        }
        let s = Pallet {
            registered_voters_with_votes: KeyedStore::new(),
            proposals: KeyedStore::new(),
            in_phase: PhaseStart(),
            total_proposals: CounterStart(),
            proposal_creators: KeyedStore::new(),
            events: Vec::new(),
        };
        assert(s@ =~= PalletState::<AccountId>::genesis());
        s
    }

    /// Registers `who` as a voter with no votes cast; the call must be
    /// dispatched by a signed extrinsic. A voter registered before is
    /// registered again, with no votes.
    pub fn register_voter(&mut self, origin: Origin<AccountId>, who: AccountId) -> (r: DispatchResult<Error>)
        ensures
            r == old(self)@.register_voter_result(origin),
            final(self)@ == old(self)@.after_register_voter(origin, who),
            old(self)@.consistent() ==> final(self)@.consistent(),
    {
        proof {
            if self@.consistent() {
                lemma_register_voter_keeps_consistency(self@, origin, who);
            }
        }
        if ensure_signed(origin).is_err() {
            return Err(DispatchError::BadOrigin);
        }
        let ghost pre = self@;
        let votes = empty_vote_numbers();
        self.registered_voters_with_votes.insert(who, votes);
        self.events.push(Event::VoterRegistered { who });
        assert(self@ =~= pre.after_register_voter(origin, who));
        Ok(())
    }

    /// Submits the proposal `text` for the signed caller, after checking, in
    /// this order, that the vote is in its proposal phase, that the caller is
    /// a registered voter, that it has not submitted a proposal before, that
    /// fewer than `MAX_PROPOSALS` proposals are stored, and that `text` is
    /// not stored yet.
    pub fn submit_proposal(&mut self, origin: Origin<AccountId>, text: ProposalID) -> (r: DispatchResult<Error>)
        ensures
            r == old(self)@.submit_proposal_result(origin, text),
            final(self)@ == old(self)@.after_submit_proposal(origin, text),
            old(self)@.consistent() ==> final(self)@.consistent(),
    {
        proof {
            if self@.consistent() {
                lemma_submit_proposal_keeps_consistency(self@, origin, text);
            }
        }
        let who = match ensure_signed(origin) {
            Ok(who) => who,
            Err(_) => return Err(DispatchError::BadOrigin),
        };
        if !self.is_proposal_phase() {
            return Err(DispatchError::Module(Error::WrongPhaseError));
        }
        if !self.is_registered(&who) {
            return Err(DispatchError::Module(Error::NotRegisteredError));
        }
        if self.created_proposal_already(&who) {
            return Err(DispatchError::Module(Error::ProposalMultipleByOneError));
        }
        if !(self.get_total() < MAX_PROPOSALS) {
            return Err(DispatchError::Module(Error::ProposalLimitReachedError));
        }
        if self.proposal_exists(&text) {
            return Err(DispatchError::Module(Error::ProposalDuplicateError));
        }
        let ghost pre = self@;
        self.proposal_creators.insert(who, ());
        self.proposals.insert(text, 0u128);
        self.increase_total();
        self.events.push(Event::ProposalSubmitted { proposal: text, who });
        assert(self@ =~= pre.after_submit_proposal(origin, text));
        Ok(())
    }

    /// The votes cast by `who`, if `who` is a registered voter.
    pub fn registered_voters_with_votes(&self, who: &AccountId) -> (r: Option<&VoteInNumbers>)
        ensures
            match r {
                Some(v) => self@.voters.dom().contains(*who) && vote_numbers(*v) == self@.voters[*who],
                None => !self@.voters.dom().contains(*who),
            },
    {
        self.registered_voters_with_votes.get(who)
    }

    /// `Some(())` if `who` has submitted a proposal.
    pub fn proposal_creators(&self, who: &AccountId) -> (r: Option<()>)
        ensures
            r is Some == self@.creators.contains(*who),
    {
        match self.proposal_creators.get(who) {
            Some(_) => Some(()),
            None => None,
        }
    }

    /// The events deposited so far, oldest first.
    pub fn events(&self) -> (r: &Vec<Event<AccountId>>)
        ensures
            r@ == self@.events,
    {
        &self.events
    }

    /// Puts the vote in `phase`, as a write of the phase storage item does.
    pub fn set_in_phase(&mut self, phase: Phase)
        ensures
            final(self)@ == (PalletState { phase, ..old(self)@ }),
    {
        self.in_phase = phase;
    }

    /// Whether `who` is a registered voter.
    pub fn is_registered(&self, who: &AccountId) -> (r: bool)
        ensures
            r == self@.voters.dom().contains(*who),
    {
        self.registered_voters_with_votes.contains_key(who)
    }

    /// Whether `who` has submitted a proposal.
    pub fn created_proposal_already(&self, who: &AccountId) -> (r: bool)
        ensures
            r == self@.creators.contains(*who),
    {
        self.proposal_creators.contains_key(who)
    }

    /// Whether `proposal` has been submitted.
    pub fn proposal_exists(&self, proposal: &ProposalID) -> (r: bool)
        ensures
            r == self@.proposals.dom().contains(*proposal),
    {
        self.proposals.contains_key(proposal)
    }

    /// The number of proposals counted so far.
    pub fn get_total(&self) -> (r: u32)
        ensures
            r == self@.total,
    {
        self.total_proposals
    }

    /// Adds one to the proposal counter.
    pub fn increase_total(&mut self)
        requires
            old(self)@.total < u32::MAX,
        ensures
            final(self)@ == (PalletState { total: (old(self)@.total + 1) as u32, ..old(self)@ }),
    {
        self.total_proposals = self.total_proposals + 1;
    }

    /// Whether the vote is in its proposal phase.
    pub fn is_proposal_phase(&self) -> (r: bool)
        ensures
            r == (self@.phase == Phase::ProposalPhase),
    {
        match self.in_phase {
            Phase::ProposalPhase => true,
            _ => false,
        }
    }
}

} // verus!
