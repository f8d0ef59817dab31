//! Tests of the voter contracts built on the engine, the governance
//! variable repository, the rate provider, and the validation rules.

use dao_core::admin::{Action as AdminAction, AdminContract};
use dao_core::ballot::Choice;
use dao_core::configuration::Configuration;
use dao_core::contract_call::{CallArgValue, CallArgs};
use dao_core::errors::Error;
use dao_core::onboarding::{OnboardingRequest, Request};
use dao_core::rate_provider::CSPRRateProviderContract;
use dao_core::repository::{
    Repository, RepositoryDefaults, RepositoryKey, RepositoryValue,
};
use dao_core::reputation::ReputationContract;
use dao_core::reputation_voter::{Action as ReputationAction, ReputationVoterContract};
use dao_core::rules::{
    CanPickBid, DoesProposedPaymentExceedBudget, DoesProposedPaymentMatchTransferred,
    HasPermissionsToCancelBid, IsDosFeeEnough, IsStakeNonZero, IsUserKyced, Validation,
};
use dao_core::simple_voter::SimpleVoterContract;
use dao_core::slashing_voter::SlashingVoterContract;
use dao_core::types::Address;
use dao_core::voting_state_machine::{VotingResult, VotingType};

const DEPLOYER: Address = Address(0);
const VOTER_CONTRACT: Address = Address(40);
const CREATOR: Address = Address(1);
const SUBJECT: Address = Address(5);

fn governance_config() -> Configuration {
    Configuration {
        post_job_dos_fee: 10,
        internal_auction_time: 100,
        public_auction_time: 100,
        default_policing_rate: 300,
        reputation_conversion_rate: 100,
        forum_kyc_required: true,
        informal_voting_quorum: 0,
        formal_voting_quorum: 0,
        informal_voting_time: 100,
        formal_voting_time: 100,
        informal_stake_reputation: true,
        time_between_informal_and_formal_voting: 50,
        va_bid_acceptance_timeout: 20,
        va_can_bid_on_public_auction: false,
        distribute_payment_to_non_voters: true,
        voting_clearness_delta: 8,
        voting_delay: 0,
        bid_escrow_payment_ratio: 100,
        bid_escrow_wallet_address: Address(99),
        total_onboarded: 3,
        is_bid_escrow: false,
        only_va_can_create: false,
        cast_first_vote: false,
        time_between_votings_doubled: false,
    }
}

fn ledger() -> ReputationContract {
    let mut reputation = ReputationContract::new(DEPLOYER);
    reputation.add_to_whitelist(DEPLOYER, VOTER_CONTRACT).unwrap();
    reputation.mint(DEPLOYER, CREATOR, 1000).unwrap();
    reputation.mint(DEPLOYER, SUBJECT, 400).unwrap();
    reputation
}

#[test]
fn admin_round_yields_the_contract_call() {
    let mut reputation = ledger();
    let mut admin = AdminContract::new(VOTER_CONTRACT, DEPLOYER);
    let event = admin
        .create_voting(
            &mut reputation,
            CREATOR,
            true,
            Address(60),
            AdminAction::AddToWhitelist,
            Address(61),
            0,
            governance_config(),
            0,
        )
        .unwrap();
    assert_eq!(event.info.voting_id, 0);
    let (summary, call) = admin
        .finish_voting(&mut reputation, 0, VotingType::Informal, 101)
        .unwrap();
    assert_eq!(summary.result(), VotingResult::InFavor);
    assert_eq!(call, None);
    let (summary, call) = admin
        .finish_voting(&mut reputation, 0, VotingType::Formal, 251)
        .unwrap();
    assert_eq!(summary.result(), VotingResult::InFavor);
    let call = call.unwrap();
    assert_eq!(call.address, Address(60));
    assert_eq!(call.entry_point, "add_to_whitelist");
    assert_eq!(call.call_args.args, vec![("address", CallArgValue::Account(Address(61)))]);
    assert_eq!(call.amount, None);
}

#[test]
fn admin_actions_name_their_entry_points() {
    assert_eq!(AdminAction::AddToWhitelist.get_entry_point(), "add_to_whitelist");
    assert_eq!(AdminAction::RemoveFromWhitelist.get_entry_point(), "remove_from_whitelist");
    assert_eq!(AdminAction::ChangeOwner.get_entry_point(), "change_ownership");
    assert_eq!(AdminAction::AddToWhitelist.get_arg(), "address");
    assert_eq!(AdminAction::ChangeOwner.get_arg(), "owner");
}

#[test]
fn reputation_round_mints_on_success() {
    let mut reputation = ledger();
    let mut voter = ReputationVoterContract::new(VOTER_CONTRACT, DEPLOYER);
    voter
        .create_voting(
            &mut reputation,
            CREATOR,
            true,
            SUBJECT,
            ReputationAction::Mint,
            70,
            0xd0c,
            0,
            governance_config(),
            0,
        )
        .unwrap();
    voter
        .finish_voting(&mut reputation, 0, VotingType::Informal, 101)
        .unwrap();
    let (summary, action) = voter
        .finish_voting(&mut reputation, 0, VotingType::Formal, 251)
        .unwrap();
    assert_eq!(summary.result(), VotingResult::InFavor);
    assert_eq!(action, Some((SUBJECT, ReputationAction::Mint, 70)));
    assert_eq!(reputation.balance_of(SUBJECT), 470);
}

#[test]
fn reputation_actions_build_their_calls() {
    assert_eq!(ReputationAction::Burn.entrypoint(), "burn");
    assert_eq!(ReputationAction::Mint.entrypoint(), "mint");
    let args = ReputationAction::Mint.call_args(SUBJECT, 9);
    assert_eq!(
        args.args,
        vec![
            ("recipient", CallArgValue::Account(SUBJECT)),
            ("amount", CallArgValue::Amount(9)),
        ]
    );
    let args = ReputationAction::Burn.call_args(SUBJECT, 9);
    assert_eq!(args.args[0], ("owner", CallArgValue::Account(SUBJECT)));
}

#[test]
fn simple_round_remembers_its_document() {
    let mut reputation = ledger();
    let mut voter = SimpleVoterContract::new(VOTER_CONTRACT, DEPLOYER);
    let event = voter
        .create_voting(&mut reputation, CREATOR, true, 0xabc, 0, governance_config(), 0)
        .unwrap();
    assert_eq!(event.document_hash, 0xabc);
    assert_eq!(voter.get_document_hash(0), Some(0xabc));
    assert_eq!(voter.get_document_hash(1), None);
    let (summary, _) = voter
        .finish_voting(&mut reputation, 0, VotingType::Informal, 101)
        .unwrap();
    assert_eq!(summary.result(), VotingResult::InFavor);
}

#[test]
fn partial_slash_burns_the_snapshot_share() {
    let mut reputation = ledger();
    let mut voter = SlashingVoterContract::new(VOTER_CONTRACT, DEPLOYER);
    // The subject holds 400; the snapshot share of half is 200.
    voter
        .create_voting(
            &mut reputation, CREATOR, true, SUBJECT, 500, 0, governance_config(), 0,
        )
        .unwrap();
    voter
        .finish_voting(&mut reputation, 0, VotingType::Informal, 101)
        .unwrap();
    let (summary, cascade) = voter
        .finish_voting(&mut reputation, 0, VotingType::Formal, 251)
        .unwrap();
    assert_eq!(summary.result(), VotingResult::InFavor);
    assert_eq!(cascade, None);
    assert_eq!(reputation.balance_of(SUBJECT), 200);
}

#[test]
fn full_slash_reports_the_cascade() {
    let mut reputation = ledger();
    let escrow = Address(70);
    reputation.add_to_whitelist(DEPLOYER, escrow).unwrap();
    // The subject has an open bid stake held by some escrow contract.
    reputation
        .stake_bid(
            escrow,
            dao_core::stakes::ShortenedBid {
                bid_id: 3,
                reputation_stake: 40,
                worker: SUBJECT,
            },
        )
        .unwrap();
    let mut voter = SlashingVoterContract::new(VOTER_CONTRACT, DEPLOYER);
    voter
        .update_bid_escrow_list(DEPLOYER, vec![escrow])
        .unwrap();
    voter
        .create_voting(
            &mut reputation, CREATOR, true, SUBJECT, 1000, 0, governance_config(), 0,
        )
        .unwrap();
    voter
        .finish_voting(&mut reputation, 0, VotingType::Informal, 101)
        .unwrap();
    let (_, cascade) = voter
        .finish_voting(&mut reputation, 0, VotingType::Formal, 251)
        .unwrap();
    let cascade = cascade.unwrap();
    assert_eq!(cascade.subject, SUBJECT);
    assert_eq!(cascade.bid_escrows, vec![escrow]);
    assert_eq!(cascade.bid_slashes, vec![(escrow, 3)]);
    assert_eq!(cascade.voting_slashes, vec![]);
    assert_eq!(reputation.balance_of(SUBJECT), 0);
}

#[test]
fn the_subject_of_a_slashing_round_cannot_vote() {
    let mut reputation = ledger();
    let mut voter = SlashingVoterContract::new(VOTER_CONTRACT, DEPLOYER);
    voter
        .create_voting(
            &mut reputation, CREATOR, true, SUBJECT, 500, 0, governance_config(), 0,
        )
        .unwrap();
    assert_eq!(
        voter.vote(
            &mut reputation, SUBJECT, 0, VotingType::Informal, Choice::Against, 10, 5,
        ),
        Err(Error::SubjectOfSlashing)
    );
    voter
        .vote(&mut reputation, CREATOR, 0, VotingType::Informal, Choice::InFavor, 10, 5)
        .unwrap();
}

#[test]
fn repository_stages_future_values() {
    let mut repository = Repository::new();
    repository.init(Address(90), Address(91), Address(92));
    assert_eq!(
        repository.get(RepositoryKey::BidEscrowWalletAddress, 0),
        Some(RepositoryValue::Account(Address(91)))
    );
    assert_eq!(
        repository.get(RepositoryKey::VotingClearnessDelta, 0),
        Some(RepositoryValue::Amount(8))
    );
    // Staging a value in the past is rejected.
    assert_eq!(
        repository.update_at(
            RepositoryKey::VotingClearnessDelta,
            RepositoryValue::Amount(9),
            Some(10),
            50,
        ),
        Err(Error::ActivationTimeInPast)
    );
    // A staged value becomes current once its time has passed.
    repository
        .update_at(
            RepositoryKey::VotingClearnessDelta,
            RepositoryValue::Amount(9),
            Some(100),
            50,
        )
        .unwrap();
    assert_eq!(
        repository.get(RepositoryKey::VotingClearnessDelta, 60),
        Some(RepositoryValue::Amount(8))
    );
    assert_eq!(
        repository.get(RepositoryKey::VotingClearnessDelta, 101),
        Some(RepositoryValue::Amount(9))
    );
    let record = repository
        .get_full_value(RepositoryKey::VotingClearnessDelta)
        .unwrap();
    assert_eq!(record.0, RepositoryValue::Amount(8));
    assert_eq!(record.1, Some((RepositoryValue::Amount(9), 100)));
}

#[test]
fn repository_rejects_staging_unknown_keys() {
    let mut repository = Repository::new();
    assert_eq!(
        repository.update_at(
            RepositoryKey::PostJobDosFee,
            RepositoryValue::Amount(11),
            Some(100),
            50,
        ),
        Err(Error::KeyValueStorageError)
    );
}

#[test]
fn repository_defaults_cover_every_variable() {
    let defaults = RepositoryDefaults::default();
    let items = defaults.items();
    assert_eq!(items.len(), 23);
    assert_eq!(items[0], (RepositoryKey::PostJobDosFee, RepositoryValue::Amount(10000)));
    assert_eq!(
        items[20],
        (RepositoryKey::VotingClearnessDelta, RepositoryValue::Amount(8))
    );
}

#[test]
fn rate_provider_is_owner_gated() {
    let mut provider = CSPRRateProviderContract::new(DEPLOYER, 1000);
    assert_eq!(provider.get_rate(), 1000);
    assert_eq!(provider.get_owner(), Some(DEPLOYER));
    assert_eq!(provider.set_rate(Address(3), 2000), Err(Error::NotAnOwner));
    provider.set_rate(DEPLOYER, 2000).unwrap();
    assert_eq!(provider.get_rate(), 2000);
}

#[test]
fn validation_rules_name_their_errors() {
    assert_eq!(
        CanPickBid { address: Address(1), job_poster: Address(2) }.validate(),
        Err(Error::OnlyJobPosterCanPickABid)
    );
    assert_eq!(
        CanPickBid { address: Address(2), job_poster: Address(2) }.validate(),
        Ok(())
    );
    assert_eq!(
        DoesProposedPaymentExceedBudget { proposed_payment: 11, max_budget: 10 }.validate(),
        Err(Error::PaymentExceedsMaxBudget)
    );
    assert_eq!(
        DoesProposedPaymentMatchTransferred { proposed_payment: 5, transferred: 6 }
            .validate(),
        Err(Error::PurseBalanceMismatch)
    );
    assert_eq!(
        HasPermissionsToCancelBid { canceller: Address(1), bidder: Address(2) }.validate(),
        Err(Error::CannotCancelNotOwnedBid)
    );
    assert_eq!(
        IsStakeNonZero { reputation_stake: 0, cspr_stake: None }.validate(),
        Err(Error::ZeroStake)
    );
    assert_eq!(
        IsStakeNonZero { reputation_stake: 0, cspr_stake: Some(5) }.validate(),
        Ok(())
    );
    assert_eq!(IsUserKyced { verified: false }.validate(), Err(Error::NotKyced));
    let mut config = governance_config();
    config.post_job_dos_fee = 100;
    assert_eq!(
        IsDosFeeEnough { configuration: config, rate: 1000, dos_fee: 99 }.validate(),
        Err(Error::DosFeeTooLow)
    );
    assert_eq!(
        IsDosFeeEnough { configuration: config, rate: 1000, dos_fee: 100 }.validate(),
        Ok(())
    );
}

#[test]
fn fiat_conversion_rounds_down() {
    let config = governance_config();
    assert_eq!(config.convert_to_fiat(999, 500), Some(499));
    assert_eq!(config.convert_to_fiat(0, 500), Some(0));
}

#[test]
fn onboarding_requests_are_validated() {
    let accepted = Request::new(OnboardingRequest {
        requestor: SUBJECT,
        reason: 0x1a,
        rep_stake: 10,
        cspr_deposit: 20,
        is_va: false,
        exists_ongoing_voting: false,
        is_kyced: true,
    })
    .unwrap();
    assert_eq!(accepted.creator(), SUBJECT);
    assert_eq!(*accepted.reason(), 0x1a);
    assert_eq!(accepted.rep_stake(), 10);
    assert_eq!(accepted.cspr_deposit(), 20);
    assert_eq!(
        Request::new(OnboardingRequest {
            requestor: SUBJECT,
            reason: 0x1a,
            rep_stake: 10,
            cspr_deposit: 20,
            is_va: true,
            exists_ongoing_voting: false,
            is_kyced: true,
        }),
        Err(Error::VaOnboardedAlready)
    );
    assert_eq!(
        Request::new(OnboardingRequest {
            requestor: SUBJECT,
            reason: 0x1a,
            rep_stake: 10,
            cspr_deposit: 20,
            is_va: false,
            exists_ongoing_voting: false,
            is_kyced: false,
        }),
        Err(Error::NotKyced)
    );
}

#[test]
fn contract_calls_expose_their_parts() {
    let mut args = CallArgs::new();
    args.insert("amount", CallArgValue::Amount(7));
    let call = dao_core::contract_call::ContractCall {
        address: Address(8),
        entry_point: "withdraw",
        call_args: args,
        amount: Some(7),
    };
    assert_eq!(*call.address(), Address(8));
    assert_eq!(call.entry_point(), "withdraw");
    assert_eq!(call.call_args().args.len(), 1);
    assert_eq!(call.amount(), Some(7));
}

#[test]
fn only_onboarded_accounts_create_restricted_rounds() {
    let mut reputation = ledger();
    let mut voter = SimpleVoterContract::new(VOTER_CONTRACT, DEPLOYER);
    let mut config = governance_config();
    config.only_va_can_create = true;
    assert_eq!(
        voter
            .create_voting(&mut reputation, CREATOR, false, 0xabc, 0, config, 0)
            .map(|e| e.info.voting_id),
        Err(Error::NotOnboarded)
    );
}
