//! What holds of the NFT voting pallet across calls.
use vstd::prelude::*;
use crate::origin::{Origin, DispatchError};
use super::pallet::{PalletState, Error, Event, ProposalID};
use super::types::{Phase, VoteNumbers};

verus! {

/// An account is registered at most once: after a registration succeeds,
/// the next registration of the same account is refused, by a signed caller
/// because the account is registered already.
pub proof fn lemma_register_once<AccountId>(
    s: PalletState<AccountId>,
    first: Origin<AccountId>,
    second: Origin<AccountId>,
    who: AccountId,
)
    requires
        s.register_voter_result(first, who) is Ok,
    ensures
        s.after_register_voter(first, who).register_voter_result(second, who) is Err,
        second is Signed ==> s.after_register_voter(first, who).register_voter_result(second, who)
            == Err::<(), DispatchError<Error>>(DispatchError::Module(Error::AccountAlreadyRegistered)),
{
}

/// A refused registration leaves the storage as it was.
pub proof fn lemma_refused_registration_changes_nothing<AccountId>(
    s: PalletState<AccountId>,
    origin: Origin<AccountId>,
    who: AccountId,
)
    ensures
        s.register_voter_result(origin, who) is Err ==> s.after_register_voter(origin, who) == s,
{
}

/// A registered voter stays registered, and registering a voter keeps the
/// phase, the proposals, their creators and the counter.
pub proof fn lemma_registration_keeps_the_rest<AccountId>(
    s: PalletState<AccountId>,
    origin: Origin<AccountId>,
    who: AccountId,
)
    ensures
        s.voters.dom().subset_of(s.after_register_voter(origin, who).voters.dom()),
        s.after_register_voter(origin, who).phase == s.phase,
        s.after_register_voter(origin, who).proposals == s.proposals,
        s.after_register_voter(origin, who).creators == s.creators,
        s.after_register_voter(origin, who).total == s.total,
{
}

/// A signed caller registers any account that is not registered yet, in
/// any phase: the call succeeds, the account becomes a voter with no votes
/// cast, exactly one `VoterRegistered` event for it is deposited, and nothing
/// else changes. The call succeeds only for a signed caller and an account
/// not registered yet.
pub proof fn lemma_signed_caller_registers_new_voter<AccountId>(
    s: PalletState<AccountId>,
    origin: Origin<AccountId>,
    who: AccountId,
)
    ensures
        (s.register_voter_result(origin, who) is Ok) == (origin is Signed && !s.voters.dom().contains(
            who,
        )),
        !(origin is Signed) ==> s.register_voter_result(origin, who) == Err::<(), DispatchError<Error>>(
            DispatchError::BadOrigin,
        ),
        (origin is Signed && !s.voters.dom().contains(who)) ==> {
            let t = s.after_register_voter(origin, who);
            &&& t.voters.dom().contains(who)
            &&& t.voters[who] == Seq::<VoteNumbers<ProposalID>>::empty()
            &&& t.voters == s.voters.insert(who, Seq::empty())
            &&& t.events == s.events.push(Event::VoterRegistered { who })
            &&& t.proposals == s.proposals
            &&& t.creators == s.creators
            &&& t.total == s.total
            &&& t.phase == s.phase
        },
{
}

/// A signed caller's proposal passes the checks exactly when the vote is in
/// its proposal phase and the caller is a registered voter with no proposal
/// yet; outside the proposal phase it is refused with `WrongPhaseError`.
pub proof fn lemma_submit_proposal_checks_exactly<AccountId>(
    s: PalletState<AccountId>,
    who: AccountId,
)
    ensures
        (s.submit_proposal_result(Origin::Signed(who)) is Ok) == (s.phase == Phase::ProposalPhase
            && s.voters.dom().contains(who) && !s.creators.contains(who)),
        s.phase != Phase::ProposalPhase ==> s.submit_proposal_result(Origin::Signed(who))
            == Err::<(), DispatchError<Error>>(DispatchError::Module(Error::WrongPhaseError)),
{
}

/// A dispatchable call of the pallet, with the arguments that decide it.
#[verifier::reject_recursive_types(AccountId)]
pub enum Call<AccountId> {
    RegisterVoter { origin: Origin<AccountId>, who: AccountId },
    SubmitProposal { origin: Origin<AccountId> },
}

/// The storage after `call`: a proposal submission leaves it as it was.
pub open spec fn after_call<AccountId>(s: PalletState<AccountId>, call: Call<AccountId>) -> PalletState<AccountId> {
    match call {
        Call::RegisterVoter { origin, who } => s.after_register_voter(origin, who),
        Call::SubmitProposal { .. } => s,
    }
}

/// The storage after `calls`, made in order from `s`.
pub open spec fn after_calls<AccountId>(s: PalletState<AccountId>, calls: Seq<Call<AccountId>>) -> PalletState<AccountId>
    decreases calls.len(),
{
    if calls.len() == 0 {
        s
    } else {
        after_calls(after_call(s, calls[0]), calls.drop_first())
    }
}

/// The pallet's calls never store a proposal, record a proposal's creator,
/// move the counter or change the phase: from a new chain, these stay as
/// they were at genesis.
pub proof fn lemma_calls_store_no_proposal<AccountId>(calls: Seq<Call<AccountId>>)
    ensures
        after_calls(PalletState::<AccountId>::genesis(), calls).proposals == Map::<[u8; 32], u128>::empty(),
        after_calls(PalletState::<AccountId>::genesis(), calls).creators == Set::<AccountId>::empty(),
        after_calls(PalletState::<AccountId>::genesis(), calls).total == 0,
        after_calls(PalletState::<AccountId>::genesis(), calls).phase == PalletState::<AccountId>::genesis().phase,
{
    lemma_calls_keep_the_rest(PalletState::<AccountId>::genesis(), calls);
}

/// Any sequence of calls keeps the proposals, their creators, the counter
/// and the phase.
pub proof fn lemma_calls_keep_the_rest<AccountId>(s: PalletState<AccountId>, calls: Seq<Call<AccountId>>)
    ensures
        after_calls(s, calls).proposals == s.proposals,
        after_calls(s, calls).creators == s.creators,
        after_calls(s, calls).total == s.total,
        after_calls(s, calls).phase == s.phase,
    decreases calls.len(),
{
    if calls.len() > 0 {
        lemma_calls_keep_the_rest(after_call(s, calls[0]), calls.drop_first());
    }
}

} // verus!
