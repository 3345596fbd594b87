//! What holds of the voting pallet across calls.
use vstd::prelude::*;
use crate::origin::{Origin, DispatchError};
use super::pallet::{ProposalID, PalletState, Error, Event, MAX_PROPOSALS};
use super::types::{Phase, VoteNumbers};

verus! {

/// A new chain's storage is consistent.
pub proof fn lemma_genesis_consistent<AccountId>()
    ensures
        PalletState::<AccountId>::genesis().consistent(),
{
    assert(PalletState::<AccountId>::genesis().proposals.dom() =~= Set::<ProposalID>::empty());
}

/// Registering a voter keeps the storage consistent, whoever calls.
pub proof fn lemma_register_voter_keeps_consistency<AccountId>(
    s: PalletState<AccountId>,
    origin: Origin<AccountId>,
    who: AccountId,
)
    requires
        s.consistent(),
    ensures
        s.after_register_voter(origin, who).consistent(),
{
}

/// Submitting a proposal keeps the storage consistent, whether the call
/// succeeds or is refused.
pub proof fn lemma_submit_proposal_keeps_consistency<AccountId>(
    s: PalletState<AccountId>,
    origin: Origin<AccountId>,
    text: ProposalID,
)
    requires
        s.consistent(),
    ensures
        s.after_submit_proposal(origin, text).consistent(),
{
    if let Origin::Signed(who) = origin {
        if s.submit_refusal(who, text) is None {
            let t = s.after_submit_proposal(origin, text);
            assert(t.proposals.dom() =~= s.proposals.dom().insert(text));
        }
    }
}

/// A refused call leaves the storage as it was: it deposits no event and
/// writes nothing.
pub proof fn lemma_refused_call_changes_nothing<AccountId>(
    s: PalletState<AccountId>,
    origin: Origin<AccountId>,
    who: AccountId,
    text: ProposalID,
)
    ensures
        s.register_voter_result(origin) is Err ==> s.after_register_voter(origin, who) == s,
        s.submit_proposal_result(origin, text) is Err ==> s.after_submit_proposal(origin, text)
            == s,
{
}

/// No call changes the phase of the vote.
pub proof fn lemma_phase_is_kept<AccountId>(
    s: PalletState<AccountId>,
    origin: Origin<AccountId>,
    who: AccountId,
    text: ProposalID,
)
    ensures
        s.after_register_voter(origin, who).phase == s.phase,
        s.after_submit_proposal(origin, text).phase == s.phase,
{
}

/// A registered voter stays registered, whatever is called next.
pub proof fn lemma_registration_persists<AccountId>(
    s: PalletState<AccountId>,
    origin: Origin<AccountId>,
    who: AccountId,
    text: ProposalID,
)
    ensures
        s.voters.dom().subset_of(s.after_register_voter(origin, who).voters.dom()),
        s.voters.dom().subset_of(s.after_submit_proposal(origin, text).voters.dom()),
{
}

/// An account whose proposal was accepted cannot submit another one.
pub proof fn lemma_one_proposal_per_account<AccountId>(
    s: PalletState<AccountId>,
    who: AccountId,
    first: ProposalID,
    second: ProposalID,
)
    requires
        s.submit_proposal_result(Origin::Signed(who), first) is Ok,
    ensures
        s.after_submit_proposal(Origin::Signed(who), first).submit_proposal_result(
            Origin::Signed(who),
            second,
        ) == Err::<(), DispatchError<Error>>(DispatchError::Module(Error::ProposalMultipleByOneError)),
{
}

/// A proposal, once accepted, is refused when submitted again, by anyone.
pub proof fn lemma_no_duplicate_proposals<AccountId>(
    s: PalletState<AccountId>,
    first: Origin<AccountId>,
    second: Origin<AccountId>,
    text: ProposalID,
)
    requires
        s.submit_proposal_result(first, text) is Ok,
    ensures
        s.after_submit_proposal(first, text).submit_proposal_result(second, text) is Err,
{
}

/// A signed caller registers any account, in any phase: the call succeeds,
/// the account becomes a voter with no votes cast, exactly one
/// `VoterRegistered` event for it is deposited, and nothing else changes.
/// Any other origin is refused with `BadOrigin`.
pub proof fn lemma_signed_caller_registers_voter<AccountId>(
    s: PalletState<AccountId>,
    origin: Origin<AccountId>,
    who: AccountId,
)
    ensures
        (s.register_voter_result(origin) is Ok) == (origin is Signed),
        !(origin is Signed) ==> s.register_voter_result(origin) == Err::<(), DispatchError<Error>>(
            DispatchError::BadOrigin,
        ),
        origin is Signed ==> {
            let t = s.after_register_voter(origin, who);
            &&& t.voters.dom().contains(who)
            &&& t.voters[who] == Seq::<VoteNumbers<ProposalID>>::empty()
            &&& t.voters == s.voters.insert(who, Seq::empty())
            &&& t.events == s.events.push(Event::VoterRegistered { who })
            &&& t.proposals == s.proposals
            &&& t.creators == s.creators
            &&& t.total == s.total
            &&& t.phase == s.phase
        },
{
}

/// A signed caller's proposal `text` is accepted exactly when the vote is in
/// its proposal phase, the caller is a registered voter with no proposal yet,
/// fewer than `MAX_PROPOSALS` proposals are stored, and `text` itself is not
/// stored. Once the other checks pass, the refusal as a duplicate comes
/// exactly when `text` is stored already.
pub proof fn lemma_submit_proposal_accepts_exactly<AccountId>(
    s: PalletState<AccountId>,
    who: AccountId,
    text: ProposalID,
)
    ensures
        (s.submit_proposal_result(Origin::Signed(who), text) is Ok) == (s.phase
            == Phase::ProposalPhase && s.voters.dom().contains(who) && !s.creators.contains(who)
            && s.total < MAX_PROPOSALS && !s.proposals.dom().contains(text)),
        s.phase != Phase::ProposalPhase ==> s.submit_proposal_result(Origin::Signed(who), text)
            == Err::<(), DispatchError<Error>>(DispatchError::Module(Error::WrongPhaseError)),
        (s.phase == Phase::ProposalPhase && s.voters.dom().contains(who) && !s.creators.contains(
            who,
        ) && s.total < MAX_PROPOSALS) ==> ((s.submit_proposal_result(Origin::Signed(who), text)
            == Err::<(), DispatchError<Error>>(DispatchError::Module(Error::ProposalDuplicateError)))
            == s.proposals.dom().contains(text)),
{
}

/// An accepted proposal is stored under `text` itself, with no votes; its
/// caller is recorded as its creator, the counter grows by one, exactly one
/// `ProposalSubmitted` event for `text` and the caller is deposited, however
/// many proposals were stored before, and the voters and phase are kept.
pub proof fn lemma_accepted_proposal_is_stored<AccountId>(
    s: PalletState<AccountId>,
    who: AccountId,
    text: ProposalID,
)
    requires
        s.submit_proposal_result(Origin::Signed(who), text) is Ok,
    ensures
        ({
            let t = s.after_submit_proposal(Origin::Signed(who), text);
            &&& t.proposals == s.proposals.insert(text, 0)
            &&& t.proposals.dom().contains(text)
            &&& t.proposals[text] == 0
            &&& t.creators == s.creators.insert(who)
            &&& t.total == s.total + 1
            &&& t.events == s.events.push(Event::ProposalSubmitted { proposal: text, who })
            &&& t.voters == s.voters
            &&& t.phase == s.phase
        }),
{
}

/// A dispatchable call of the pallet, with its arguments.
#[verifier::reject_recursive_types(AccountId)]
pub enum Call<AccountId> {
    RegisterVoter { origin: Origin<AccountId>, who: AccountId },
    SubmitProposal { origin: Origin<AccountId>, text: ProposalID },
}

/// The storage after `call`.
pub open spec fn after_call<AccountId>(s: PalletState<AccountId>, call: Call<AccountId>) -> PalletState<AccountId> {
    match call {
        Call::RegisterVoter { origin, who } => s.after_register_voter(origin, who),
        Call::SubmitProposal { origin, text } => s.after_submit_proposal(origin, text),
    }
}

/// The storage after `calls`, made in order from `s`.
pub open spec fn after_calls<AccountId>(s: PalletState<AccountId>, calls: Seq<Call<AccountId>>) -> PalletState<AccountId>
    decreases calls.len(),
{
    if calls.len() == 0 {
        s
    } else {
        after_calls(after_call(s, calls[0]), calls.drop_first())
    }
}

/// Every storage that a chain reaches from its genesis through the pallet's
/// calls is consistent: at most 100 proposals, counted exactly, each from
/// its own registered voter, none with votes.
pub proof fn lemma_reachable_storage_is_consistent<AccountId>(calls: Seq<Call<AccountId>>)
    ensures
        after_calls(PalletState::<AccountId>::genesis(), calls).consistent(),
{
    lemma_genesis_consistent::<AccountId>();
    lemma_calls_keep_consistency(PalletState::<AccountId>::genesis(), calls);
}

/// Any sequence of calls keeps a consistent storage consistent.
pub proof fn lemma_calls_keep_consistency<AccountId>(s: PalletState<AccountId>, calls: Seq<Call<AccountId>>)
    requires
        s.consistent(),
    ensures
        after_calls(s, calls).consistent(),
    decreases calls.len(),
{
    if calls.len() > 0 {
        match calls[0] {
            Call::RegisterVoter { origin, who } => {
                lemma_register_voter_keeps_consistency(s, origin, who);
            },
            Call::SubmitProposal { origin, text } => {
                lemma_submit_proposal_keeps_consistency(s, origin, text);
            },
        }
        lemma_calls_keep_consistency(after_call(s, calls[0]), calls.drop_first());
    }
}

} // verus!
