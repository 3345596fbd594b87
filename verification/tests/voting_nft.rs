use frame_support::traits::ConstU32;
use frame_support::BoundedVec;
use voting_pallets::origin::{DispatchError, Origin};
use voting_pallets::voting_nft::pallet::{Error, Event, Pallet as NftPallet, PhaseStart};

type Pallet = NftPallet<u64>;

const REGISTRAR: Origin<u64> = Origin::Signed(1000);
use voting_pallets::voting_nft::types::{Conviction, Phase, Proposal, VoteAllocated, Votes};

type Text = BoundedVec<u32, ConstU32<16>>;

fn text(v: &[u32]) -> Text {
    Text::try_from(v.to_vec()).unwrap()
}

fn submit(p: &mut Pallet, origin: Origin<u64>) -> Result<(), DispatchError<Error>> {
    p.submit_proposal(origin, text(&[1, 2]), text(&[3]), text(&[]))
}

#[test]
fn nft_genesis_values() {
    assert_eq!(PhaseStart(), Phase::ProposalPhase);
    let p = Pallet::new();
    assert_eq!(p.get_current_phase(), Phase::ProposalPhase);
    assert!(p.is_proposal_phase());
    assert_eq!(p.get_total(), 0);
    assert_eq!(p.total_proposals(), 0);
    assert_eq!(p.get_proposals(&[0u8; 32]), None);
    assert!(p.events().is_empty());
}

#[test]
fn nft_root_registers_a_voter_once() {
    let mut p = Pallet::new();
    assert_eq!(p.register_voter(REGISTRAR, 4), Ok(()));
    assert!(p.is_registered(&4));
    assert_eq!(p.registered_voters_with_votes(&4).map(|v| v.len()), Some(0));
    assert_eq!(
        p.register_voter(REGISTRAR, 4),
        Err(DispatchError::Module(Error::AccountAlreadyRegistered))
    );
    assert_eq!(p.events(), &vec![Event::VoterRegistered { who: 4 }]);
}

#[test]
fn nft_only_signed_callers_register_voters() {
    let mut p = Pallet::new();
    assert_eq!(p.register_voter(Origin::Root, 4), Err(DispatchError::BadOrigin));
    assert_eq!(p.register_voter(Origin::Authorized, 4), Err(DispatchError::BadOrigin));
    assert!(!p.is_registered(&4));
    assert!(p.registered_voters_with_votes(&4).is_none());
}

#[test]
fn nft_bad_origin_is_checked_before_registration() {
    let mut p = Pallet::new();
    assert_eq!(p.register_voter(REGISTRAR, 4), Ok(()));
    assert_eq!(p.register_voter(Origin::Unsigned, 4), Err(DispatchError::BadOrigin));
}

#[test]
fn nft_second_registration_by_another_caller_is_refused() {
    let mut p = Pallet::new();
    assert_eq!(p.register_voter(Origin::Signed(4), 4), Ok(()));
    assert_eq!(
        p.register_voter(Origin::Signed(5), 4),
        Err(DispatchError::Module(Error::AccountAlreadyRegistered))
    );
    assert_eq!(p.events().len(), 1);
}

#[test]
fn nft_registered_voter_passes_the_proposal_checks() {
    let mut p = Pallet::new();
    assert_eq!(p.register_voter(REGISTRAR, 1), Ok(()));
    assert_eq!(submit(&mut p, Origin::Signed(1)), Ok(()));
    // the proposal is not stored
    assert!(!p.created_proposal_already(&1));
    assert_eq!(p.get_total(), 0);
    assert_eq!(p.events().len(), 1);
    assert_eq!(submit(&mut p, Origin::Signed(1)), Ok(()));
}

#[test]
fn nft_submission_errors() {
    let mut p = Pallet::new();
    assert_eq!(submit(&mut p, Origin::Root), Err(DispatchError::BadOrigin));
    assert_eq!(
        submit(&mut p, Origin::Signed(1)),
        Err(DispatchError::Module(Error::NotRegisteredError))
    );
    assert_eq!(p.register_voter(REGISTRAR, 1), Ok(()));
    p.insert_proposal_creator(1);
    assert_eq!(p.proposal_creators(&1), Some(()));
    assert!(p.created_proposal_already(&1));
    assert_eq!(
        submit(&mut p, Origin::Signed(1)),
        Err(DispatchError::Module(Error::ProposalMultipleByOneError))
    );
    p.set_in_phase(Phase::Accepted);
    assert_eq!(p.get_current_phase(), Phase::Accepted);
    assert_eq!(
        submit(&mut p, Origin::Signed(1)),
        Err(DispatchError::Module(Error::WrongPhaseError))
    );
}

#[test]
fn nft_stored_proposals_are_read_back() {
    let mut p = Pallet::new();
    let id = [9u8; 32];
    p.insert_proposal(id, 12);
    assert!(p.proposal_exists(&id));
    assert_eq!(p.get_proposals(&id), Some(12));
    p.insert_proposal(id, 13);
    assert_eq!(p.get_proposals(&id), Some(13));
    assert!(!p.proposal_exists(&[8u8; 32]));
}

#[test]
fn nft_stored_value_types() {
    let votes: Votes<Conviction, u32, u64> =
        Votes { vote: true, conviction: Conviction::Locked2x, collection: 1, item: 2 };
    let alloc = VoteAllocated { proposal: [1u8; 32], vote: votes.clone() };
    assert_eq!(alloc.vote, votes);
    let proposal: Proposal<u64, ConstU32<16>> =
        Proposal { title: text(&[1]), author: 5, about: text(&[2, 3]), department: text(&[]) };
    assert_eq!(proposal.about.len(), 2);
    assert_eq!(proposal.author, 5);
}
