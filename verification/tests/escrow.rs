//! Tests of the bid escrow auction: posting, bidding, picking,
//! cancelling, slashing, and the payment split of a settled job.

use dao_core::bid::BidStatus;
use dao_core::bid_engine::BidEngine;
use dao_core::configuration::Configuration;
use dao_core::errors::Error;
use dao_core::job::JobStatus;
use dao_core::job_offer::{AuctionState, JobOfferStatus};
use dao_core::redistribution::{redistribute_cspr_to_all_vas, PaymentSplit};
use dao_core::ballot::Choice;
use dao_core::bid_escrow_contract::BidEscrowContract;
use dao_core::reputation::ReputationContract;
use dao_core::types::{Address, Transfer, TransferReason};
use dao_core::voting_state_machine::{VotingResult, VotingType};

const DEPLOYER: Address = Address(0);
const ESCROW: Address = Address(30);
const POSTER: Address = Address(1);
const INTERNAL_WORKER: Address = Address(2);
const SECOND_WORKER: Address = Address(3);
const EXTERNAL_WORKER: Address = Address(4);

/// The native-to-fiat rate used by the tests: one to one.
const RATE: u64 = 1000;

fn escrow_config() -> Configuration {
    Configuration {
        post_job_dos_fee: 10,
        internal_auction_time: 100,
        public_auction_time: 100,
        default_policing_rate: 300,
        reputation_conversion_rate: 100,
        forum_kyc_required: true,
        informal_voting_quorum: 1,
        formal_voting_quorum: 1,
        informal_voting_time: 100,
        formal_voting_time: 100,
        informal_stake_reputation: true,
        time_between_informal_and_formal_voting: 50,
        va_bid_acceptance_timeout: 20,
        va_can_bid_on_public_auction: false,
        distribute_payment_to_non_voters: true,
        voting_clearness_delta: 8,
        voting_delay: 0,
        bid_escrow_payment_ratio: 100,
        bid_escrow_wallet_address: Address(99),
        total_onboarded: 3,
        is_bid_escrow: true,
        only_va_can_create: false,
        cast_first_vote: false,
        time_between_votings_doubled: false,
    }
}

fn setup() -> (BidEngine, ReputationContract) {
    let mut reputation = ReputationContract::new(DEPLOYER);
    reputation.add_to_whitelist(DEPLOYER, ESCROW).unwrap();
    for worker in [INTERNAL_WORKER, SECOND_WORKER] {
        reputation.mint(DEPLOYER, worker, 1000).unwrap();
    }
    (BidEngine::new(ESCROW, DEPLOYER), reputation)
}

fn post_offer(engine: &mut BidEngine, reputation: &mut ReputationContract) -> u32 {
    engine
        .post_job_offer(POSTER, true, 0, 500, 1000, 50, escrow_config(), RATE)
        .unwrap()
}

#[test]
fn posting_requires_kyc_and_a_sufficient_deposit() {
    let (mut engine, _reputation) = setup();
    assert_eq!(
        engine.post_job_offer(POSTER, false, 0, 500, 1000, 50, escrow_config(), RATE),
        Err(Error::NotKyced)
    );
    // A deposit of 5 converts to a fiat value of 5, under the floor of 10.
    assert_eq!(
        engine.post_job_offer(POSTER, true, 0, 500, 1000, 5, escrow_config(), RATE),
        Err(Error::DosFeeTooLow)
    );
    let id = engine
        .post_job_offer(POSTER, true, 0, 500, 1000, 50, escrow_config(), RATE)
        .unwrap();
    assert_eq!(id, 0);
    assert_eq!(engine.job_offers_count(), 1);
    let offer = engine.get_job_offer(0).unwrap();
    assert_eq!(offer.status, JobOfferStatus::Created);
    assert_eq!(offer.max_budget, 1000);
    assert_eq!(offer.dos_fee, 50);
}

#[test]
fn auction_windows_follow_the_clock() {
    let (mut engine, mut reputation) = setup();
    let id = post_offer(&mut engine, &mut reputation);
    let offer = engine.get_job_offer(id).unwrap();
    assert_eq!(offer.auction_state(0), AuctionState::Internal);
    assert_eq!(offer.auction_state(99), AuctionState::Internal);
    assert_eq!(offer.auction_state(100), AuctionState::Public);
    assert_eq!(offer.auction_state(199), AuctionState::Public);
    assert_eq!(offer.auction_state(200), AuctionState::Closed);
}

#[test]
fn bidding_rules_per_auction_window() {
    let (mut engine, mut reputation) = setup();
    let id = post_offer(&mut engine, &mut reputation);
    // An external worker cannot bid during the internal auction.
    assert_eq!(
        engine.submit_bid(
            &mut reputation, EXTERNAL_WORKER, true, false, 10, id, 100, 600, 0, false,
            Some(25),
        ),
        Err(Error::OnlyOnboardedWorkerCanBid)
    );
    // An onboarded worker cannot bid during the public auction when
    // the snapshot forbids it.
    assert_eq!(
        engine.submit_bid(
            &mut reputation, INTERNAL_WORKER, true, true, 150, id, 100, 600, 100, false,
            None,
        ),
        Err(Error::OnboardedWorkerCannotBid)
    );
    // Nobody bids outside both windows.
    assert_eq!(
        engine.submit_bid(
            &mut reputation, EXTERNAL_WORKER, true, false, 250, id, 100, 600, 0, true,
            Some(25),
        ),
        Err(Error::AuctionNotRunning)
    );
    // The poster cannot bid on their own offer.
    assert_eq!(
        engine.submit_bid(
            &mut reputation, POSTER, true, true, 10, id, 100, 600, 100, false, None,
        ),
        Err(Error::CannotBidOnOwnJob)
    );
    // The payment must stay within the budget.
    assert_eq!(
        engine.submit_bid(
            &mut reputation, INTERNAL_WORKER, true, true, 10, id, 100, 1600, 100, false,
            None,
        ),
        Err(Error::PaymentExceedsMaxBudget)
    );
    // Some stake must back the bid.
    assert_eq!(
        engine.submit_bid(
            &mut reputation, INTERNAL_WORKER, true, true, 10, id, 100, 600, 0, false, None,
        ),
        Err(Error::ZeroStake)
    );
    // An external worker bids with a native-currency stake during the
    // public auction.
    let bid_id = engine
        .submit_bid(
            &mut reputation, EXTERNAL_WORKER, true, false, 150, id, 100, 600, 0, true,
            Some(25),
        )
        .unwrap();
    let bid = engine.get_bid(bid_id).unwrap();
    assert_eq!(bid.cspr_stake, Some(25));
    assert_eq!(bid.reputation_stake, 0);
}

#[test]
fn picking_a_bid_unstakes_and_rejects_the_others() {
    let (mut engine, mut reputation) = setup();
    let id = post_offer(&mut engine, &mut reputation);
    let first = engine
        .submit_bid(&mut reputation, INTERNAL_WORKER, true, true, 10, id, 100, 600, 600,
            false, None)
        .unwrap();
    let second = engine
        .submit_bid(&mut reputation, SECOND_WORKER, true, true, 11, id, 100, 600, 900,
            false, None)
        .unwrap();
    assert_eq!(reputation.get_stake(INTERNAL_WORKER), 600);
    assert_eq!(reputation.get_stake(SECOND_WORKER), 900);

    let (job_id, transfers) = engine
        .pick_bid(&mut reputation, POSTER, true, 20, id, first, 600)
        .unwrap();
    assert_eq!(job_id, 0);
    assert_eq!(transfers, vec![]);
    // The losing bid's reputation is fully unstaked and it is rejected.
    assert_eq!(reputation.get_stake(SECOND_WORKER), 0);
    assert_eq!(engine.get_bid(second).unwrap().status, BidStatus::Rejected);
    // The picked bid stays staked and the offer advances.
    assert_eq!(reputation.get_stake(INTERNAL_WORKER), 600);
    assert_eq!(engine.get_bid(first).unwrap().status, BidStatus::Picked);
    assert_eq!(
        engine.get_job_offer(id).unwrap().status,
        JobOfferStatus::InProgress
    );
    let job = engine.get_job(job_id).unwrap();
    assert_eq!(job.worker, INTERNAL_WORKER);
    assert_eq!(job.poster, POSTER);
    assert_eq!(job.payment, 600);
    assert_eq!(job.finish_time, 120);
}

#[test]
fn picking_validates_poster_and_purse() {
    let (mut engine, mut reputation) = setup();
    let id = post_offer(&mut engine, &mut reputation);
    let bid = engine
        .submit_bid(&mut reputation, INTERNAL_WORKER, true, true, 10, id, 100, 600, 600,
            false, None)
        .unwrap();
    assert_eq!(
        engine.pick_bid(&mut reputation, INTERNAL_WORKER, true, 20, id, bid, 600),
        Err(Error::OnlyJobPosterCanPickABid)
    );
    assert_eq!(
        engine.pick_bid(&mut reputation, POSTER, true, 20, id, bid, 599),
        Err(Error::PurseBalanceMismatch)
    );
    assert_eq!(
        engine.pick_bid(&mut reputation, POSTER, true, 20, 7, bid, 600),
        Err(Error::JobOfferNotFound)
    );
    assert_eq!(
        engine.pick_bid(&mut reputation, POSTER, true, 20, id, 9, 600),
        Err(Error::BidNotFound)
    );
}

#[test]
fn cancelling_a_bid_needs_the_timeout() {
    let (mut engine, mut reputation) = setup();
    let id = post_offer(&mut engine, &mut reputation);
    let bid = engine
        .submit_bid(&mut reputation, INTERNAL_WORKER, true, true, 10, id, 100, 600, 600,
            false, None)
        .unwrap();
    assert_eq!(
        engine.cancel_bid(&mut reputation, SECOND_WORKER, 40, bid),
        Err(Error::CannotCancelNotOwnedBid)
    );
    // The acceptance timeout of 20 has not elapsed since submission
    // at 10.
    assert_eq!(
        engine.cancel_bid(&mut reputation, INTERNAL_WORKER, 25, bid),
        Err(Error::CannotCancelBidBeforeAcceptanceTimeout)
    );
    let refund = engine
        .cancel_bid(&mut reputation, INTERNAL_WORKER, 40, bid)
        .unwrap();
    assert_eq!(refund, None);
    assert_eq!(reputation.get_stake(INTERNAL_WORKER), 0);
    assert_eq!(engine.get_bid(bid).unwrap().status, BidStatus::Cancelled);
}

#[test]
fn cancelling_an_offer_reverses_everything() {
    let (mut engine, mut reputation) = setup();
    let id = post_offer(&mut engine, &mut reputation);
    engine
        .submit_bid(&mut reputation, INTERNAL_WORKER, true, true, 10, id, 100, 600, 600,
            false, None)
        .unwrap();
    assert_eq!(
        engine.cancel_job_offer(&mut reputation, INTERNAL_WORKER, id),
        Err(Error::CannotCancelNotOwnedJobOffer)
    );
    let transfers = engine
        .cancel_job_offer(&mut reputation, POSTER, id)
        .unwrap();
    // The only transfer is the poster's deposit going back.
    assert_eq!(
        transfers,
        vec![Transfer { to: POSTER, amount: 50, reason: TransferReason::DOSFeeReturn }]
    );
    assert_eq!(reputation.get_stake(INTERNAL_WORKER), 0);
    assert_eq!(
        engine.get_job_offer(id).unwrap().status,
        JobOfferStatus::Cancelled
    );
    // A cancelled offer cannot be cancelled again.
    assert_eq!(
        engine.cancel_job_offer(&mut reputation, POSTER, id),
        Err(Error::JobOfferNotCancellable)
    );
}

#[test]
fn slashing_a_bid_cancels_it() {
    let (mut engine, mut reputation) = setup();
    let id = post_offer(&mut engine, &mut reputation);
    let bid = engine
        .submit_bid(&mut reputation, INTERNAL_WORKER, true, true, 10, id, 100, 600, 600,
            false, None)
        .unwrap();
    assert_eq!(
        engine.slash_bid(&mut reputation, Address(77), bid),
        Err(Error::NotWhitelisted)
    );
    engine.slash_bid(&mut reputation, DEPLOYER, bid).unwrap();
    assert_eq!(engine.get_bid(bid).unwrap().status, BidStatus::Cancelled);
    assert_eq!(reputation.get_stake(INTERNAL_WORKER), 0);
}

#[test]
fn job_proof_is_submitted_once_by_the_worker() {
    let (mut engine, mut reputation) = setup();
    let id = post_offer(&mut engine, &mut reputation);
    let bid = engine
        .submit_bid(&mut reputation, INTERNAL_WORKER, true, true, 10, id, 100, 600, 600,
            false, None)
        .unwrap();
    let (job_id, _) = engine
        .pick_bid(&mut reputation, POSTER, true, 20, id, bid, 600)
        .unwrap();
    assert_eq!(
        engine.submit_job_proof(SECOND_WORKER, job_id, 0xfeed),
        Err(Error::OnlyWorkerCanSubmitProof)
    );
    let job = engine
        .submit_job_proof(INTERNAL_WORKER, job_id, 0xfeed)
        .unwrap();
    assert_eq!(job.status, JobStatus::Submitted);
    assert_eq!(job.proof, Some(0xfeed));
    assert_eq!(
        engine.submit_job_proof(INTERNAL_WORKER, job_id, 0xfeed),
        Err(Error::JobAlreadySubmitted)
    );
    assert_eq!(
        engine.submit_job_proof(INTERNAL_WORKER, 9, 0xfeed),
        Err(Error::JobNotFound)
    );
}

#[test]
fn grace_period_replaces_a_defaulted_worker() {
    let (mut engine, mut reputation) = setup();
    let id = post_offer(&mut engine, &mut reputation);
    let bid = engine
        .submit_bid(&mut reputation, INTERNAL_WORKER, true, true, 10, id, 100, 600, 600,
            false, None)
        .unwrap();
    // Picked at 20 with a timeframe of 100: the deadline is 120, the
    // grace period runs to 220.
    let (job_id, _) = engine
        .pick_bid(&mut reputation, POSTER, true, 20, id, bid, 600)
        .unwrap();
    assert_eq!(
        engine.submit_job_proof_during_grace_period(
            &mut reputation, SECOND_WORKER, true, true, 100, job_id, 0xbeef, 50, false,
            None,
        ),
        Err(Error::GracePeriodNotStarted)
    );
    let before = reputation.balance_of(INTERNAL_WORKER);
    let (job, forfeited) = engine
        .submit_job_proof_during_grace_period(
            &mut reputation, SECOND_WORKER, true, true, 130, job_id, 0xbeef, 50, false,
            None,
        )
        .unwrap();
    // The defaulted worker's stake is released and burned.
    assert_eq!(reputation.get_stake(INTERNAL_WORKER), 0);
    assert_eq!(reputation.balance_of(INTERNAL_WORKER), before - 600);
    assert_eq!(forfeited, 0);
    // The replacement takes over with their own stake.
    assert_eq!(job.worker, SECOND_WORKER);
    assert_eq!(job.stake, 50);
    assert_eq!(job.status, JobStatus::Submitted);
    assert_eq!(reputation.get_stake(SECOND_WORKER), 50);
}

#[test]
fn payment_split_for_an_external_worker() {
    let config = escrow_config();
    // Governance 1000 * 100 / 1000 = 100; the remainder is 900; the
    // associates get 900 * 300 / 1000 = 270; the worker keeps 630.
    let split = PaymentSplit::split(1000, &config, false, false);
    assert_eq!(split.governance, 100);
    assert_eq!(split.va_pool, 270);
    assert_eq!(split.worker, 630);
    assert_eq!(split.governance + split.va_pool + split.worker, 1000);
}

#[test]
fn payment_split_for_an_onboarded_worker() {
    let config = escrow_config();
    let split = PaymentSplit::split(1000, &config, true, false);
    assert_eq!(split.governance, 100);
    assert_eq!(split.va_pool, 900);
    assert_eq!(split.worker, 0);
}

#[test]
fn pro_rata_redistribution_rounds_down() {
    let mut reputation = ReputationContract::new(DEPLOYER);
    reputation.mint(DEPLOYER, Address(1), 300).unwrap();
    reputation.mint(DEPLOYER, Address(2), 700).unwrap();
    let all = reputation.all_balances();
    let transfers = redistribute_cspr_to_all_vas(99, &all);
    assert_eq!(
        transfers,
        vec![
            Transfer { to: Address(1), amount: 29, reason: TransferReason::Redistribution },
            Transfer { to: Address(2), amount: 69, reason: TransferReason::Redistribution },
        ]
    );
}

#[test]
fn full_escrow_flow_settles_the_payment() {
    let poster = Address(1);
    let worker = Address(2);
    let alice = Address(3);
    let bob = Address(4);
    let mut reputation = ReputationContract::new(DEPLOYER);
    reputation.add_to_whitelist(DEPLOYER, ESCROW).unwrap();
    for account in [worker, alice, bob] {
        reputation.mint(DEPLOYER, account, 1000).unwrap();
    }
    let mut contract = BidEscrowContract::new(ESCROW, DEPLOYER);

    // Post, bid, pick.
    let offer = contract
        .bid_engine
        .post_job_offer(poster, true, 0, 100, 1000, 50, escrow_config(), RATE)
        .unwrap();
    let bid = contract
        .bid_engine
        .submit_bid(&mut reputation, worker, true, true, 10, offer, 100, 600, 600, false,
            None)
        .unwrap();
    let (job_id, _) = contract
        .bid_engine
        .pick_bid(&mut reputation, poster, true, 20, offer, bid, 600)
        .unwrap();

    // The proof opens the voting round; the worker's stake moves from
    // the bid to their first ballot.
    let voting_id = contract
        .submit_job_proof(&mut reputation, worker, 30, job_id, 0xfeed, escrow_config())
        .unwrap();
    assert_eq!(reputation.get_stake(worker), 600);

    // The informal phase passes; the formal phase decides in favor.
    contract
        .finish_voting(&mut reputation, voting_id, VotingType::Informal, 131)
        .unwrap();
    contract
        .vote(&mut reputation, alice, voting_id, VotingType::Formal, Choice::InFavor, 100,
            190)
        .unwrap();
    contract
        .vote(&mut reputation, bob, voting_id, VotingType::Formal, Choice::Against, 40, 191)
        .unwrap();
    // Neither party of the job may vote on it.
    assert_eq!(
        contract.vote(
            &mut reputation, worker, voting_id, VotingType::Formal, Choice::InFavor, 5, 192,
        ),
        Err(Error::CannotVoteOnOwnJob)
    );
    let (summary, transfers) = contract
        .finish_voting(&mut reputation, voting_id, VotingType::Formal, 281)
        .unwrap();
    assert_eq!(summary.result(), VotingResult::InFavor);

    // The reputation side settled first: the losing 40 burned, the
    // winner's share minted.
    assert_eq!(reputation.balance_of(alice), 1040);
    assert_eq!(reputation.balance_of(bob), 960);
    assert_eq!(reputation.get_stake(worker), 0);

    // The payment split: governance 600 * 100 / 1000 = 60; the whole
    // remainder of 540 goes pro rata to the holders (the worker is an
    // associate); the deposit returns last.
    assert_eq!(
        transfers,
        vec![
            Transfer { to: Address(99), amount: 60, reason: TransferReason::GovernancePayment },
            Transfer { to: worker, amount: 180, reason: TransferReason::Redistribution },
            Transfer { to: alice, amount: 187, reason: TransferReason::Redistribution },
            Transfer { to: bob, amount: 172, reason: TransferReason::Redistribution },
            Transfer { to: poster, amount: 50, reason: TransferReason::DOSFeeReturn },
        ]
    );
    assert_eq!(
        contract.bid_engine.get_job(job_id).unwrap().status,
        JobStatus::Completed
    );
    assert_eq!(
        contract.bid_engine.get_job_offer(offer).unwrap().status,
        JobOfferStatus::Completed
    );
}

#[test]
fn slashing_a_poster_cancels_their_open_offers() {
    let (mut engine, mut reputation) = setup();
    let first = post_offer(&mut engine, &mut reputation);
    let second = post_offer(&mut engine, &mut reputation);
    engine
        .submit_bid(&mut reputation, INTERNAL_WORKER, true, true, 10, first, 100, 600, 600,
            false, None)
        .unwrap();
    assert_eq!(
        engine.slash_all_active_job_offers(&mut reputation, Address(77), POSTER),
        Err(Error::NotWhitelisted)
    );
    let transfers = engine
        .slash_all_active_job_offers(&mut reputation, DEPLOYER, POSTER)
        .unwrap();
    // Both deposits come back; the bid's stake is released.
    assert_eq!(
        transfers,
        vec![
            Transfer { to: POSTER, amount: 50, reason: TransferReason::DOSFeeReturn },
            Transfer { to: POSTER, amount: 50, reason: TransferReason::DOSFeeReturn },
        ]
    );
    assert_eq!(reputation.get_stake(INTERNAL_WORKER), 0);
    assert_eq!(
        engine.get_job_offer(first).unwrap().status,
        JobOfferStatus::Cancelled
    );
    assert_eq!(
        engine.get_job_offer(second).unwrap().status,
        JobOfferStatus::Cancelled
    );
}

#[test]
fn storage_getters_round_trip() {
    let (mut engine, mut reputation) = setup();
    let id = post_offer(&mut engine, &mut reputation);
    let bid_id = engine
        .submit_bid(&mut reputation, INTERNAL_WORKER, true, true, 10, id, 100, 600, 600,
            false, None)
        .unwrap();
    assert_eq!(bid_id, 0);
    assert_eq!(engine.bids_count(), 1);
    assert_eq!(engine.get_bid_or_revert(&bid_id).unwrap().worker, INTERNAL_WORKER);
    assert_eq!(engine.get_bid_or_revert(&9), Err(Error::BidNotFound));
    assert_eq!(
        engine.get_job_offer_or_revert(&9),
        Err(Error::JobOfferNotFound)
    );
    assert_eq!(
        engine.return_job_offer_poster_dos_fee(&id),
        Ok(Transfer { to: POSTER, amount: 50, reason: TransferReason::DOSFeeReturn })
    );
    // A withdrawn bid written back through the store keeps its place.
    let mut bid = engine.get_bid(bid_id).unwrap();
    let released = reputation.unstake_bid(ESCROW, dao_core::stakes::ShortenedBid {
        bid_id,
        reputation_stake: 600,
        worker: INTERNAL_WORKER,
    });
    assert_eq!(released, Ok(()));
    bid.cancel_without_validation();
    engine.store_bid(bid);
    assert_eq!(engine.get_bid(bid_id).unwrap().status, BidStatus::Cancelled);
    let (job_id, _) = {
        let second = engine
            .submit_bid(&mut reputation, SECOND_WORKER, true, true, 11, id, 100, 600, 900,
                false, None)
            .unwrap();
        engine
            .pick_bid(&mut reputation, POSTER, true, 20, id, second, 600)
            .unwrap()
    };
    assert_eq!(engine.jobs_count(), 1);
    let job = engine.get_job(job_id).unwrap();
    let configuration = engine.get_job_offer_configuration(&job).unwrap();
    assert_eq!(configuration.post_job_dos_fee, 10);
}
