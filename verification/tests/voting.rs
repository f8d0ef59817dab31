//! Tests of the voting state machine, the engine, and the settlement
//! of finished rounds.

use dao_core::ballot::Choice;
use dao_core::configuration::Configuration;
use dao_core::errors::Error;
use dao_core::reputation::ReputationContract;
use dao_core::types::Address;
use dao_core::voting_engine::VotingEngine;
use dao_core::voting_events::Reason;
use dao_core::voting_state_machine::{
    Stats, VotingResult, VotingState, VotingStateMachine, VotingSummary, VotingType,
};

const DEPLOYER: Address = Address(0);
const GOVERNOR: Address = Address(20);
const CREATOR: Address = Address(1);
const ALICE: Address = Address(2);
const BOB: Address = Address(3);

fn test_config() -> Configuration {
    Configuration {
        post_job_dos_fee: 10,
        internal_auction_time: 100,
        public_auction_time: 100,
        default_policing_rate: 300,
        reputation_conversion_rate: 100,
        forum_kyc_required: true,
        informal_voting_quorum: 1,
        formal_voting_quorum: 1,
        informal_voting_time: 100,
        formal_voting_time: 100,
        informal_stake_reputation: true,
        time_between_informal_and_formal_voting: 50,
        va_bid_acceptance_timeout: 20,
        va_can_bid_on_public_auction: false,
        distribute_payment_to_non_voters: true,
        voting_clearness_delta: 8,
        voting_delay: 0,
        bid_escrow_payment_ratio: 100,
        bid_escrow_wallet_address: Address(99),
        total_onboarded: 3,
        is_bid_escrow: false,
        only_va_can_create: false,
        cast_first_vote: false,
        time_between_votings_doubled: false,
    }
}

fn ledger() -> ReputationContract {
    let mut reputation = ReputationContract::new(DEPLOYER);
    reputation.add_to_whitelist(DEPLOYER, GOVERNOR).unwrap();
    for account in [CREATOR, ALICE, BOB] {
        reputation.mint(DEPLOYER, account, 1000).unwrap();
    }
    reputation
}

#[test]
fn quorum_boundary_and_tie_break() {
    let mut machine = VotingStateMachine::new(0, 0, CREATOR, test_config());
    machine.add_stake(10, Choice::InFavor);
    machine.add_stake(10, Choice::Against);
    let mut config = test_config();
    config.informal_voting_quorum = 5;
    let machine_with_quorum = VotingStateMachine::new(0, 0, CREATOR, config);
    // One voter short of the quorum: no result.
    assert_eq!(
        machine_with_quorum.get_result(4),
        VotingResult::QuorumNotReached
    );
    // Exactly at the quorum with a tie: the tie favors "in favor".
    assert_eq!(machine_with_quorum.get_result(5), VotingResult::InFavor);
    assert_eq!(machine.get_result(1), VotingResult::InFavor);
}

#[test]
fn against_wins_only_with_more_stake() {
    let mut machine = VotingStateMachine::new(0, 0, CREATOR, test_config());
    machine.add_stake(10, Choice::InFavor);
    machine.add_stake(11, Choice::Against);
    assert_eq!(machine.get_result(2), VotingResult::Against);
}

#[test]
fn state_follows_the_clock() {
    let machine = VotingStateMachine::new(0, 0, CREATOR, test_config());
    assert_eq!(machine.state_in_time(0), VotingState::Informal);
    assert_eq!(machine.state_in_time(100), VotingState::Informal);
    assert_eq!(machine.state_in_time(101), VotingState::BetweenVotings);
    assert_eq!(machine.state_in_time(150), VotingState::BetweenVotings);
    assert_eq!(machine.state_in_time(151), VotingState::Formal);
    assert_eq!(machine.state_in_time(250), VotingState::Formal);
    assert_eq!(machine.state_in_time(251), VotingState::Finished);
}

#[test]
fn delayed_round_starts_later() {
    let mut config = test_config();
    config.voting_delay = 30;
    let machine = VotingStateMachine::new(0, 0, CREATOR, config);
    assert_eq!(machine.state_in_time(10), VotingState::Created);
    assert_eq!(machine.state_in_time(30), VotingState::Informal);
    assert_eq!(machine.informal_voting_end_time(), 130);
    assert_eq!(machine.time_between_votings_end_time(), 180);
    assert_eq!(machine.formal_voting_end_time(), 280);
}

#[test]
fn first_ballot_at_creation_advances_to_formal() {
    let mut reputation = ledger();
    let mut engine = VotingEngine::new(GOVERNOR);
    let mut config = test_config();
    config.cast_first_vote = true;
    config.informal_voting_time = 100;
    let info = engine
        .create_voting(&mut reputation, CREATOR, true, 10, config, 0)
        .unwrap();
    assert_eq!(info.voting_id, 0);
    assert_eq!(info.stake, Some(10));
    assert_eq!(reputation.get_stake(CREATOR), 10);
    // Advance past the informal window and settle the phase.
    let (summary, ended) = engine
        .finish_voting(&mut reputation, 0, VotingType::Informal, 101)
        .unwrap();
    assert_eq!(summary.result(), VotingResult::InFavor);
    assert!(!summary.is_voting_process_finished());
    let machine = engine.get_voting(0).unwrap();
    assert_eq!(*machine.state(), VotingState::Formal);
    assert_eq!(machine.voting_type(), VotingType::Formal);
    // The informal stake went back to the creator.
    assert_eq!(reputation.get_stake(CREATOR), 0);
    assert_eq!(
        ended.unstakes,
        vec![(CREATOR, Reason::InformalFinished, 10)]
    );
}

#[test]
fn close_informal_result_doubles_the_pause() {
    let mut reputation = ledger();
    let mut engine = VotingEngine::new(GOVERNOR);
    engine
        .create_voting(&mut reputation, CREATOR, true, 10, test_config(), 0)
        .unwrap();
    engine
        .vote(&mut reputation, ALICE, 0, VotingType::Informal, Choice::InFavor, 100, 5)
        .unwrap();
    engine
        .vote(&mut reputation, BOB, 0, VotingType::Informal, Choice::Against, 95, 6)
        .unwrap();
    // Difference 5 of total 195: about 2 per cent, within the delta of 8.
    engine
        .finish_voting(&mut reputation, 0, VotingType::Informal, 101)
        .unwrap();
    let machine = engine.get_voting(0).unwrap();
    assert_eq!(
        machine.voting_configuration().time_between_informal_and_formal_voting,
        100
    );
    assert!(machine.voting_configuration().time_between_votings_doubled);
}

#[test]
fn formal_settlement_burns_losers_and_rewards_winners() {
    let mut reputation = ledger();
    let mut engine = VotingEngine::new(GOVERNOR);
    let mut config = test_config();
    config.cast_first_vote = true;
    engine
        .create_voting(&mut reputation, CREATOR, true, 300, config, 0)
        .unwrap();
    engine
        .vote(&mut reputation, BOB, 0, VotingType::Informal, Choice::Against, 100, 5)
        .unwrap();
    engine
        .finish_voting(&mut reputation, 0, VotingType::Informal, 101)
        .unwrap();
    // The formal phase: 300 in favor, 100 against, quorum reached.
    engine
        .vote(&mut reputation, CREATOR, 0, VotingType::Formal, Choice::InFavor, 300, 160)
        .unwrap();
    engine
        .vote(&mut reputation, BOB, 0, VotingType::Formal, Choice::Against, 100, 161)
        .unwrap();
    let (summary, ended) = engine
        .finish_voting(&mut reputation, 0, VotingType::Formal, 251)
        .unwrap();
    assert_eq!(summary.result(), VotingResult::InFavor);
    assert!(summary.is_formal());
    assert!(summary.is_voting_process_finished());
    // The losing 100 is burned; the winner gets its stake back plus
    // the proportional share 300 * 100 / 300 = 100 of the loss.
    assert_eq!(ended.burns, vec![(BOB, Reason::FormalLost, 100)]);
    assert_eq!(ended.mints, vec![(CREATOR, Reason::FormalWon, 100)]);
    assert_eq!(
        ended.unstakes,
        vec![
            (CREATOR, Reason::FormalFinished, 300),
            (BOB, Reason::FormalFinished, 100),
        ]
    );
    assert_eq!(reputation.balance_of(CREATOR), 1100);
    assert_eq!(reputation.balance_of(BOB), 900);
    assert_eq!(reputation.get_stake(CREATOR), 0);
    assert_eq!(reputation.get_stake(BOB), 0);
    assert_eq!(reputation.total_supply(), 3000);
}

#[test]
fn missed_quorum_returns_every_stake() {
    let mut reputation = ledger();
    let mut engine = VotingEngine::new(GOVERNOR);
    let mut config = test_config();
    config.cast_first_vote = true;
    config.formal_voting_quorum = 3;
    engine
        .create_voting(&mut reputation, CREATOR, true, 300, config, 0)
        .unwrap();
    engine
        .finish_voting(&mut reputation, 0, VotingType::Informal, 101)
        .unwrap();
    engine
        .vote(&mut reputation, ALICE, 0, VotingType::Formal, Choice::InFavor, 50, 160)
        .unwrap();
    let (summary, ended) = engine
        .finish_voting(&mut reputation, 0, VotingType::Formal, 251)
        .unwrap();
    assert_eq!(summary.result(), VotingResult::QuorumNotReached);
    assert_eq!(ended.burns, vec![]);
    assert_eq!(ended.mints, vec![]);
    assert_eq!(reputation.balance_of(ALICE), 1000);
    assert_eq!(reputation.get_stake(ALICE), 0);
}

#[test]
fn voting_guards_reject_bad_calls() {
    let mut reputation = ledger();
    let mut engine = VotingEngine::new(GOVERNOR);
    engine
        .create_voting(&mut reputation, CREATOR, true, 10, test_config(), 0)
        .unwrap();
    assert_eq!(
        engine.vote(&mut reputation, ALICE, 7, VotingType::Informal, Choice::InFavor, 5, 5),
        Err(Error::VotingDoesNotExist)
    );
    assert_eq!(
        engine.vote(&mut reputation, ALICE, 0, VotingType::Formal, Choice::InFavor, 5, 5),
        Err(Error::VotingWithGivenTypeNotInProgress)
    );
    // Voting twice in one phase needs a cancel first.
    engine
        .vote(&mut reputation, ALICE, 0, VotingType::Informal, Choice::InFavor, 5, 5)
        .unwrap();
    assert_eq!(
        engine.vote(&mut reputation, ALICE, 0, VotingType::Informal, Choice::Against, 5, 6),
        Err(Error::CannotVoteTwice)
    );
    // Finishing before the window has elapsed fails.
    assert_eq!(
        engine.finish_voting(&mut reputation, 0, VotingType::Informal, 50),
        Err(Error::InformalVotingNotYetFinished)
    );
    assert_eq!(
        engine.finish_voting(&mut reputation, 9, VotingType::Informal, 50),
        Err(Error::VotingDoesNotExist)
    );
}

#[test]
fn finishing_twice_is_rejected() {
    let mut reputation = ledger();
    let mut engine = VotingEngine::new(GOVERNOR);
    let mut config = test_config();
    config.cast_first_vote = true;
    config.informal_voting_quorum = 2;
    engine
        .create_voting(&mut reputation, CREATOR, true, 10, config, 0)
        .unwrap();
    // The informal phase misses its quorum: the round finishes.
    let (summary, _) = engine
        .finish_voting(&mut reputation, 0, VotingType::Informal, 101)
        .unwrap();
    assert_eq!(summary.result(), VotingResult::QuorumNotReached);
    assert!(engine.get_voting(0).unwrap().completed());
    assert_eq!(
        engine.finish_voting(&mut reputation, 0, VotingType::Informal, 102),
        Err(Error::FinishingCompletedVotingNotAllowed)
    );
}

#[test]
fn slashed_voter_loses_the_ballot_but_not_the_balance() {
    let mut reputation = ledger();
    let mut engine = VotingEngine::new(GOVERNOR);
    let mut config = test_config();
    config.cast_first_vote = true;
    engine
        .create_voting(&mut reputation, CREATOR, true, 10, config, 0)
        .unwrap();
    engine
        .vote(&mut reputation, ALICE, 0, VotingType::Informal, Choice::InFavor, 70, 5)
        .unwrap();
    let machine_before = engine.get_voting(0).unwrap();
    assert_eq!(machine_before.stake_in_favor(), 80);
    let (informal, formal) = engine
        .slash_voter(&mut reputation, ALICE, 0)
        .unwrap();
    assert!(informal.is_some());
    assert!(formal.is_none());
    let ballot = engine.get_ballot(0, VotingType::Informal, ALICE).unwrap();
    assert!(ballot.canceled);
    assert_eq!(reputation.get_stake(ALICE), 0);
    assert_eq!(reputation.balance_of(ALICE), 1000);
    let machine = engine.get_voting(0).unwrap();
    assert_eq!(machine.stake_in_favor(), 10);
    assert_eq!(machine.informal_stats().votes_in_favor, 1);
}

#[test]
fn getters_expose_ballots_and_voters() {
    let mut reputation = ledger();
    let mut engine = VotingEngine::new(GOVERNOR);
    let mut config = test_config();
    config.cast_first_vote = true;
    engine
        .create_voting(&mut reputation, CREATOR, true, 10, config, 0)
        .unwrap();
    engine
        .vote(&mut reputation, ALICE, 0, VotingType::Informal, Choice::Against, 30, 5)
        .unwrap();
    assert!(engine.voting_exists(0, VotingType::Informal));
    assert!(!engine.voting_exists(0, VotingType::Formal));
    assert!(!engine.voting_exists(1, VotingType::Informal));
    assert_eq!(engine.get_voter(0, VotingType::Informal, 0), Some(CREATOR));
    assert_eq!(engine.get_voter(0, VotingType::Informal, 1), Some(ALICE));
    assert_eq!(engine.get_voter(0, VotingType::Informal, 2), None);
    let ballot = engine.get_ballot(0, VotingType::Informal, ALICE).unwrap();
    assert_eq!(ballot.stake, 30);
    assert_eq!(ballot.choice, Choice::Against);
    assert!(!ballot.unbound);
    assert_eq!(engine.get_ballot(0, VotingType::Informal, BOB), None);
}

#[test]
fn summary_reports_phase_and_result() {
    let summary = VotingSummary::new(VotingResult::Against, VotingType::Informal, 3);
    assert!(summary.is_voting_process_finished());
    assert!(!summary.is_formal());
    assert_eq!(summary.result(), VotingResult::Against);
    assert_eq!(summary.voting_type(), VotingType::Informal);
    let formal = VotingSummary::new(VotingResult::InFavor, VotingType::Formal, 3);
    assert!(formal.is_voting_process_finished());
    assert!(formal.is_formal());
}

#[test]
fn choice_knows_its_direction() {
    assert!(Choice::InFavor.is_in_favor());
    assert!(!Choice::Against.is_in_favor());
}

#[test]
fn stats_default_to_zero() {
    let stats = Stats::default();
    assert_eq!(stats.stake_in_favor, 0);
    assert_eq!(stats.stake_against, 0);
    assert_eq!(stats.unbound_stake_in_favor, 0);
    assert_eq!(stats.unbound_stake_against, 0);
    assert_eq!(stats.votes_in_favor, 0);
    assert_eq!(stats.votes_against, 0);
}

#[test]
fn unbound_informal_round_does_not_touch_the_ledger() {
    let mut reputation = ledger();
    let mut engine = VotingEngine::new(GOVERNOR);
    let mut config = test_config();
    config.informal_stake_reputation = false;
    config.cast_first_vote = true;
    engine
        .create_voting(&mut reputation, CREATOR, true, 10, config, 0)
        .unwrap();
    assert_eq!(reputation.get_stake(CREATOR), 0);
    let machine = engine.get_voting(0).unwrap();
    assert_eq!(machine.informal_stats().unbound_stake_in_favor, 10);
    assert_eq!(machine.informal_stats().stake_in_favor, 0);
}

#[test]
fn settlement_rounds_shares_down_and_drops_the_dust() {
    let mut reputation = ledger();
    let mut engine = VotingEngine::new(GOVERNOR);
    let mut config = test_config();
    config.cast_first_vote = true;
    // The creator's 7 and ALICE's 5 win against BOB's 10: the shares
    // 7 * 10 / 12 = 5 and 5 * 10 / 12 = 4 leave one unit of dust.
    engine
        .create_voting(&mut reputation, CREATOR, true, 7, config, 0)
        .unwrap();
    engine
        .finish_voting(&mut reputation, 0, VotingType::Informal, 101)
        .unwrap();
    engine
        .vote(&mut reputation, CREATOR, 0, VotingType::Formal, Choice::InFavor, 7, 160)
        .unwrap();
    engine
        .vote(&mut reputation, ALICE, 0, VotingType::Formal, Choice::InFavor, 5, 161)
        .unwrap();
    engine
        .vote(&mut reputation, BOB, 0, VotingType::Formal, Choice::Against, 10, 162)
        .unwrap();
    let (_, ended) = engine
        .finish_voting(&mut reputation, 0, VotingType::Formal, 251)
        .unwrap();
    assert_eq!(ended.burns, vec![(BOB, Reason::FormalLost, 10)]);
    assert_eq!(
        ended.mints,
        vec![(CREATOR, Reason::FormalWon, 5), (ALICE, Reason::FormalWon, 4)]
    );
    // One unit burned more than minted: the supply shrank by the dust.
    assert_eq!(reputation.total_supply(), 2999);
}

#[test]
fn bulk_mint_burn_nets_out_per_account() {
    let mut reputation = ledger();
    reputation
        .bulk_mint_burn(
            GOVERNOR,
            &vec![(ALICE, 50), (BOB, 20)],
            &vec![(ALICE, 10)],
        )
        .unwrap();
    assert_eq!(reputation.balance_of(ALICE), 1040);
    assert_eq!(reputation.balance_of(BOB), 1020);
    assert_eq!(
        reputation.bulk_mint_burn(Address(77), &vec![], &vec![]),
        Err(Error::NotWhitelisted)
    );
}
