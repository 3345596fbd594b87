use voting_pallets::origin::{DispatchError, Origin};
use voting_pallets::voting::pallet::{
    CounterStart, Error, Event, Pallet as VotingPallet, PhaseStart, ProposalID, MAX_PROPOSALS,
};
use voting_pallets::voting::types::{Conviction, Phase, VoteAllocated, VoteNumbers, Votes};

const REGISTRAR: Origin<u64> = Origin::Signed(1000);

type Pallet = VotingPallet<u64>;

fn hash(n: u8) -> ProposalID {
    let mut h = [0u8; 32];
    h[0] = n;
    h[31] = n.wrapping_mul(7);
    h
}

fn hash_of_index(i: u32) -> ProposalID {
    let mut h = [0u8; 32];
    h[0..4].copy_from_slice(&i.to_le_bytes());
    h
}

fn with_voters(voters: &[u64]) -> Pallet {
    let mut p = Pallet::new();
    for v in voters {
        assert_eq!(p.register_voter(REGISTRAR, *v), Ok(()));
    }
    p
}

#[test]
fn genesis_values() {
    assert_eq!(PhaseStart(), Phase::ProposalPhase);
    assert_eq!(CounterStart(), 0);
    let p = Pallet::new();
    assert!(p.is_proposal_phase());
    assert_eq!(p.get_total(), 0);
    assert!(!p.is_registered(&1));
    assert!(!p.created_proposal_already(&1));
    assert!(!p.proposal_exists(&hash(1)));
    assert!(p.events().is_empty());
}

#[test]
fn root_registers_a_voter_with_no_votes() {
    let mut p = Pallet::new();
    assert_eq!(p.register_voter(REGISTRAR, 7), Ok(()));
    assert!(p.is_registered(&7));
    assert!(!p.is_registered(&8));
    assert_eq!(p.registered_voters_with_votes(&7).map(|v| v.len()), Some(0));
    assert!(p.registered_voters_with_votes(&8).is_none());
    assert_eq!(p.events(), &vec![Event::VoterRegistered { who: 7 }]);
}

#[test]
fn only_signed_callers_register_voters() {
    let mut p = Pallet::new();
    assert_eq!(p.register_voter(Origin::Root, 7), Err(DispatchError::BadOrigin));
    assert_eq!(p.register_voter(Origin::Unsigned, 7), Err(DispatchError::BadOrigin));
    assert_eq!(p.register_voter(Origin::Authorized, 7), Err(DispatchError::BadOrigin));
    assert!(!p.is_registered(&7));
    assert!(p.events().is_empty());
}

#[test]
fn registering_again_keeps_the_voter() {
    let mut p = with_voters(&[3, 3]);
    assert!(p.is_registered(&3));
    assert_eq!(p.events().len(), 2);
    assert_eq!(p.submit_proposal(Origin::Signed(3), hash(1)), Ok(()));
    assert_eq!(p.register_voter(REGISTRAR, 3), Ok(()));
    assert!(p.is_registered(&3));
    assert!(p.created_proposal_already(&3));
}

#[test]
fn registered_voter_submits_a_proposal() {
    let mut p = with_voters(&[1]);
    assert_eq!(p.submit_proposal(Origin::Signed(1), hash(9)), Ok(()));
    assert!(p.proposal_exists(&hash(9)));
    assert!(!p.proposal_exists(&hash(8)));
    assert!(p.created_proposal_already(&1));
    assert_eq!(p.proposal_creators(&1), Some(()));
    assert_eq!(p.proposal_creators(&2), None);
    assert_eq!(p.get_total(), 1);
    assert_eq!(
        p.events().last(),
        Some(&Event::ProposalSubmitted { proposal: hash(9), who: 1 })
    );
}

#[test]
fn unsigned_submission_is_a_bad_origin() {
    let mut p = with_voters(&[1]);
    assert_eq!(p.submit_proposal(Origin::Root, hash(1)), Err(DispatchError::BadOrigin));
    assert_eq!(p.submit_proposal(Origin::Unsigned, hash(1)), Err(DispatchError::BadOrigin));
    assert_eq!(p.get_total(), 0);
}

#[test]
fn submission_outside_the_proposal_phase_is_refused() {
    let mut p = with_voters(&[1]);
    p.set_in_phase(Phase::VotingPhase);
    assert!(!p.is_proposal_phase());
    assert_eq!(
        p.submit_proposal(Origin::Signed(1), hash(1)),
        Err(DispatchError::Module(Error::WrongPhaseError))
    );
    assert!(!p.proposal_exists(&hash(1)));
}

#[test]
fn wrong_phase_is_checked_before_registration() {
    let mut p = Pallet::new();
    p.set_in_phase(Phase::VotingPhase);
    assert_eq!(
        p.submit_proposal(Origin::Signed(5), hash(1)),
        Err(DispatchError::Module(Error::WrongPhaseError))
    );
}

#[test]
fn unregistered_account_is_refused() {
    let mut p = with_voters(&[1]);
    assert_eq!(
        p.submit_proposal(Origin::Signed(2), hash(1)),
        Err(DispatchError::Module(Error::NotRegisteredError))
    );
    assert_eq!(p.events().len(), 1);
}

#[test]
fn second_proposal_by_one_account_is_refused() {
    let mut p = with_voters(&[1]);
    assert_eq!(p.submit_proposal(Origin::Signed(1), hash(1)), Ok(()));
    assert_eq!(
        p.submit_proposal(Origin::Signed(1), hash(2)),
        Err(DispatchError::Module(Error::ProposalMultipleByOneError))
    );
    assert!(!p.proposal_exists(&hash(2)));
    assert_eq!(p.get_total(), 1);
}

#[test]
fn duplicate_proposal_is_refused() {
    let mut p = with_voters(&[1, 2]);
    assert_eq!(p.submit_proposal(Origin::Signed(1), hash(4)), Ok(()));
    assert_eq!(
        p.submit_proposal(Origin::Signed(2), hash(4)),
        Err(DispatchError::Module(Error::ProposalDuplicateError))
    );
    assert!(!p.created_proposal_already(&2));
    assert_eq!(p.get_total(), 1);
    assert_eq!(p.events().len(), 3);
}

#[test]
fn proposal_limit_is_reached_at_one_hundred() {
    let voters: Vec<u64> = (0..=MAX_PROPOSALS as u64).collect();
    let mut p = with_voters(&voters);
    for i in 0..MAX_PROPOSALS {
        assert_eq!(p.submit_proposal(Origin::Signed(i as u64), hash_of_index(i)), Ok(()));
    }
    assert_eq!(p.get_total(), 100);
    assert_eq!(
        p.submit_proposal(Origin::Signed(100), hash_of_index(100)),
        Err(DispatchError::Module(Error::ProposalLimitReachedError))
    );
    assert_eq!(p.get_total(), 100);
    assert!(!p.proposal_exists(&hash_of_index(100)));
}

#[test]
fn limit_is_checked_before_duplicates() {
    let voters: Vec<u64> = (0..=MAX_PROPOSALS as u64).collect();
    let mut p = with_voters(&voters);
    for i in 0..MAX_PROPOSALS {
        assert_eq!(p.submit_proposal(Origin::Signed(i as u64), hash_of_index(i)), Ok(()));
    }
    assert_eq!(
        p.submit_proposal(Origin::Signed(100), hash_of_index(0)),
        Err(DispatchError::Module(Error::ProposalLimitReachedError))
    );
}

#[test]
fn increase_total_adds_one() {
    let mut p = Pallet::new();
    p.increase_total();
    p.increase_total();
    assert_eq!(p.get_total(), 2);
}

#[test]
fn counter_counts_accepted_proposals_only() {
    let mut p = with_voters(&[1, 2, 3]);
    assert_eq!(p.submit_proposal(Origin::Signed(1), hash(1)), Ok(()));
    assert!(p.submit_proposal(Origin::Signed(1), hash(2)).is_err());
    assert!(p.submit_proposal(Origin::Signed(2), hash(1)).is_err());
    assert!(p.submit_proposal(Origin::Signed(9), hash(3)).is_err());
    assert_eq!(p.submit_proposal(Origin::Signed(3), hash(3)), Ok(()));
    assert_eq!(p.get_total(), 2);
    assert!(p.proposal_exists(&hash(1)) && p.proposal_exists(&hash(3)));
    assert!(!p.proposal_exists(&hash(2)));
}

#[test]
fn calls_keep_the_phase() {
    let mut p = with_voters(&[1]);
    assert_eq!(p.submit_proposal(Origin::Signed(1), hash(1)), Ok(()));
    assert!(p.submit_proposal(Origin::Signed(2), hash(2)).is_err());
    assert!(p.register_voter(Origin::Root, 2).is_err());
    assert!(p.is_proposal_phase());
}

#[test]
fn hashes_differing_in_the_last_byte_are_different_proposals() {
    let mut p = with_voters(&[1, 2]);
    let a = [5u8; 32];
    let mut b = [5u8; 32];
    b[31] = 6;
    assert_eq!(p.submit_proposal(Origin::Signed(1), a), Ok(()));
    assert!(!p.proposal_exists(&b));
    assert_eq!(p.submit_proposal(Origin::Signed(2), b), Ok(()));
}

#[test]
fn voter_registers_itself() {
    let mut p = Pallet::new();
    assert_eq!(p.register_voter(Origin::Signed(7), 7), Ok(()));
    assert!(p.is_registered(&7));
    assert_eq!(p.submit_proposal(Origin::Signed(7), hash(2)), Ok(()));
}

#[test]
fn accounts_may_be_32_byte_ids() {
    let mut p: VotingPallet<[u8; 32]> = VotingPallet::new();
    let alice = [1u8; 32];
    let mut bob = [1u8; 32];
    bob[31] = 2;
    assert_eq!(p.register_voter(Origin::Signed(bob), alice), Ok(()));
    assert!(p.is_registered(&alice));
    assert!(!p.is_registered(&bob));
    assert_eq!(p.submit_proposal(Origin::Signed(alice), hash(1)), Ok(()));
    assert_eq!(
        p.submit_proposal(Origin::Signed(bob), hash(2)),
        Err(DispatchError::Module(Error::NotRegisteredError))
    );
}

#[test]
fn stored_value_types() {
    let numbers = VoteNumbers { number_of_votes: 3, proposal: hash(1) };
    assert!(numbers < VoteNumbers { number_of_votes: 4, proposal: hash(0) });
    let votes: Votes<Conviction> = Votes::default();
    assert_eq!(votes, Votes { vote: false, conviction: Conviction::Unlocked });
    assert!(Conviction::Unlocked < Conviction::Locked1x && Conviction::Locked1x < Conviction::Locked2x);
    let alloc = VoteAllocated { allocation: 10u128, proposal: hash(1), vote: votes.clone() };
    assert_eq!(alloc.clone(), alloc);
}
