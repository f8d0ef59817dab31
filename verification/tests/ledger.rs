//! Tests of the reputation ledger: balances, stakes, the lock bound,
//! and the stake/unstake round trip.

use dao_core::errors::Error;
use dao_core::reputation::ReputationContract;
use dao_core::stakes::ShortenedBid;
use dao_core::ballot::ShortenedBallot;
use dao_core::types::Address;

const DEPLOYER: Address = Address(0);
const ESCROW: Address = Address(10);
const WORKER: Address = Address(2);

fn ledger_with(worker_balance: u64) -> ReputationContract {
    let mut reputation = ReputationContract::new(DEPLOYER);
    reputation.add_to_whitelist(DEPLOYER, ESCROW).unwrap();
    reputation.mint(DEPLOYER, WORKER, worker_balance).unwrap();
    reputation
}

#[test]
fn mint_and_burn_move_supply() {
    let mut reputation = ReputationContract::new(DEPLOYER);
    assert_eq!(reputation.total_supply(), 0);
    reputation.mint(DEPLOYER, WORKER, 500).unwrap();
    assert_eq!(reputation.balance_of(WORKER), 500);
    assert_eq!(reputation.total_supply(), 500);
    reputation.burn(DEPLOYER, WORKER, 200).unwrap();
    assert_eq!(reputation.balance_of(WORKER), 300);
    assert_eq!(reputation.total_supply(), 300);
}

#[test]
fn burn_more_than_balance_fails() {
    let mut reputation = ledger_with(100);
    assert_eq!(
        reputation.burn(DEPLOYER, WORKER, 101),
        Err(Error::InsufficientBalance)
    );
    assert_eq!(reputation.balance_of(WORKER), 100);
}

#[test]
fn mint_needs_whitelist() {
    let mut reputation = ReputationContract::new(DEPLOYER);
    assert_eq!(
        reputation.mint(Address(7), WORKER, 10),
        Err(Error::NotWhitelisted)
    );
}

#[test]
fn stake_bid_locks_reputation() {
    let mut reputation = ledger_with(1000);
    let bid = ShortenedBid { bid_id: 4, reputation_stake: 600, worker: WORKER };
    reputation.stake_bid(ESCROW, bid).unwrap();
    assert_eq!(reputation.get_stake(WORKER), 600);
    assert_eq!(reputation.balance_of(WORKER), 1000);
    // The lock never exceeds the balance.
    assert!(reputation.get_stake(WORKER) <= reputation.balance_of(WORKER));
    let origins = reputation.stakes_info(WORKER);
    assert_eq!(origins.stakes_from_bid, vec![(ESCROW, 4)]);
    assert_eq!(origins.stakes_from_voting, vec![]);
}

#[test]
fn stake_of_zero_is_rejected() {
    let mut reputation = ledger_with(1000);
    let bid = ShortenedBid { bid_id: 4, reputation_stake: 0, worker: WORKER };
    assert_eq!(reputation.stake_bid(ESCROW, bid), Err(Error::ZeroStake));
}

#[test]
fn stake_beyond_unlocked_balance_is_rejected() {
    let mut reputation = ledger_with(1000);
    let first = ShortenedBid { bid_id: 1, reputation_stake: 700, worker: WORKER };
    reputation.stake_bid(ESCROW, first).unwrap();
    let second = ShortenedBid { bid_id: 2, reputation_stake: 400, worker: WORKER };
    assert_eq!(
        reputation.stake_bid(ESCROW, second),
        Err(Error::InsufficientBalance)
    );
}

#[test]
fn unstake_exactly_what_was_staked_restores_the_ledger() {
    let mut reputation = ledger_with(1000);
    let before_stake = reputation.get_stake(WORKER);
    let before_info = reputation.stakes_info(WORKER);
    let bid = ShortenedBid { bid_id: 9, reputation_stake: 250, worker: WORKER };
    reputation.stake_bid(ESCROW, bid).unwrap();
    reputation.unstake_bid(ESCROW, bid).unwrap();
    assert_eq!(reputation.get_stake(WORKER), before_stake);
    assert_eq!(
        reputation.stakes_info(WORKER).stakes_from_bid,
        before_info.stakes_from_bid
    );
    assert_eq!(reputation.balance_of(WORKER), 1000);
}

#[test]
fn voting_stake_round_trip() {
    let mut reputation = ledger_with(1000);
    let ballot = ShortenedBallot { voter: WORKER, stake: 40 };
    reputation.stake_voting(ESCROW, 7, ballot).unwrap();
    assert_eq!(reputation.get_stake(WORKER), 40);
    assert_eq!(
        reputation.stakes_info(WORKER).stakes_from_voting,
        vec![(ESCROW, 7)]
    );
    reputation.unstake_voting(ESCROW, 7, ballot).unwrap();
    assert_eq!(reputation.get_stake(WORKER), 0);
    assert_eq!(reputation.stakes_info(WORKER).stakes_from_voting, vec![]);
}

#[test]
fn unstake_more_than_locked_is_a_zero_stake_error() {
    let mut reputation = ledger_with(1000);
    let bid = ShortenedBid { bid_id: 1, reputation_stake: 50, worker: WORKER };
    reputation.stake_bid(ESCROW, bid).unwrap();
    let too_much = ShortenedBid { bid_id: 1, reputation_stake: 60, worker: WORKER };
    assert_eq!(reputation.unstake_bid(ESCROW, too_much), Err(Error::ZeroStake));
}

#[test]
fn bulk_unstake_releases_every_bid() {
    let mut reputation = ledger_with(1000);
    let other = Address(3);
    reputation.mint(DEPLOYER, other, 500).unwrap();
    let one = ShortenedBid { bid_id: 1, reputation_stake: 100, worker: WORKER };
    let two = ShortenedBid { bid_id: 2, reputation_stake: 200, worker: other };
    reputation.stake_bid(ESCROW, one).unwrap();
    reputation.stake_bid(ESCROW, two).unwrap();
    reputation.bulk_unstake_bid(ESCROW, &vec![one, two]).unwrap();
    assert_eq!(reputation.get_stake(WORKER), 0);
    assert_eq!(reputation.get_stake(other), 0);
}

#[test]
fn passive_reputation_is_separate() {
    let mut reputation = ledger_with(100);
    reputation.mint_passive(DEPLOYER, WORKER, 30).unwrap();
    assert_eq!(reputation.passive_balance_of(WORKER), 30);
    assert_eq!(reputation.balance_of(WORKER), 100);
    reputation.burn_passive(DEPLOYER, WORKER, 10).unwrap();
    assert_eq!(reputation.passive_balance_of(WORKER), 20);
}

#[test]
fn burn_all_empties_the_account() {
    let mut reputation = ledger_with(800);
    reputation.burn_all(DEPLOYER, WORKER).unwrap();
    assert_eq!(reputation.balance_of(WORKER), 0);
    assert_eq!(reputation.total_supply(), 0);
}

#[test]
fn all_balances_lists_every_holder() {
    let mut reputation = ledger_with(100);
    reputation.mint(DEPLOYER, Address(5), 200).unwrap();
    let aggregated = reputation.all_balances();
    assert_eq!(aggregated.total_supply(), 300);
    let mut holders = aggregated.balances().clone();
    holders.sort();
    assert_eq!(holders, vec![(WORKER, 100), (Address(5), 200)]);
}

#[test]
fn partial_balances_sums_the_listed_accounts() {
    let mut reputation = ledger_with(100);
    reputation.mint(DEPLOYER, Address(5), 200).unwrap();
    reputation.mint(DEPLOYER, Address(6), 400).unwrap();
    let partial = reputation
        .partial_balances(&vec![WORKER, Address(6)])
        .unwrap();
    assert_eq!(partial.total_supply(), 500);
    assert_eq!(partial.balances(), &vec![(WORKER, 100), (Address(6), 400)]);
}

#[test]
fn ownership_gates_the_whitelist() {
    let mut reputation = ReputationContract::new(DEPLOYER);
    assert_eq!(reputation.get_owner(), Some(DEPLOYER));
    assert_eq!(
        reputation.add_to_whitelist(Address(9), ESCROW),
        Err(Error::NotAnOwner)
    );
    reputation.add_to_whitelist(DEPLOYER, ESCROW).unwrap();
    assert!(reputation.is_whitelisted(ESCROW));
    reputation.remove_from_whitelist(DEPLOYER, ESCROW).unwrap();
    assert!(!reputation.is_whitelisted(ESCROW));
    reputation.change_ownership(DEPLOYER, Address(9)).unwrap();
    assert_eq!(reputation.get_owner(), Some(Address(9)));
}
