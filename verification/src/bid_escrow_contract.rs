//! The full escrow process: bidding through the bid engine, the
//! voting round over the submitted proof through the voting engine,
//! and the native-currency settlement once the round resolves.

use vstd::prelude::*;

verus! {

use crate::ballot::Choice;
use crate::bid_engine::BidEngine;
use crate::configuration::Configuration;
use crate::configuration::TIME_BOUND;
use crate::errors::Error;
use crate::job::Job;
use crate::job::JobStatus;
use crate::job_offer::JobOfferStatus;
use crate::redistribution::redistribute_cspr_to_all_vas;
use crate::redistribution::PaymentSplit;
use crate::reputation::ReputationContract;
use crate::types::Address;
use crate::types::Balance;
use crate::types::BlockTime;
use crate::types::JobId;
use crate::types::Transfer;
use crate::types::TransferReason;
use crate::types::VotingId;
use crate::voting_engine::VotingEngine;
use crate::voting_state_machine::VotingResult;
use crate::voting_state_machine::VotingSummary;
use crate::voting_state_machine::VotingType;


/// The transfer orders that settle a resolved job, given the holder
/// table at settlement time: the payment split (or return), the
/// worker's currency stake, and the poster's deposit, in order.
pub open spec fn settlement_transfers(
    job: Job,
    dos_fee: Balance,
    poster: Address,
    configuration: Configuration,
    result: VotingResult,
    holders: Seq<(Address, Balance)>,
    supply: Balance,
) -> Seq<Transfer> {
    let shares = |pool: Balance| Seq::new(
        holders.len(),
        |i: int| Transfer {
            to: holders[i].0,
            amount: (pool * holders[i].1 / (supply as int)) as u64,
            reason: TransferReason::Redistribution,
        },
    );
    let dos_refund = Transfer { to: poster, amount: dos_fee, reason: TransferReason::DOSFeeReturn };
    match result {
        VotingResult::InFavor => {
            let split = crate::redistribution::PaymentSplit::split_spec(
                job.payment,
                configuration,
                job.worker_is_va,
                job.onboard,
            );
            seq![
                Transfer {
                    to: configuration.bid_escrow_wallet_address,
                    amount: split.governance,
                    reason: TransferReason::GovernancePayment,
                },
            ] + (if split.worker > 0 {
                seq![
                    Transfer {
                        to: job.worker,
                        amount: split.worker,
                        reason: TransferReason::WorkerPayment,
                    },
                ]
            } else {
                Seq::empty()
            }) + (if split.va_pool > 0 {
                shares(split.va_pool)
            } else {
                Seq::empty()
            }) + (if job.external_worker_cspr_stake > 0 {
                seq![
                    Transfer {
                        to: job.worker,
                        amount: job.external_worker_cspr_stake,
                        reason: TransferReason::BidStakeReturn,
                    },
                ]
            } else {
                Seq::empty()
            }) + seq![dos_refund]
        },
        VotingResult::Against | VotingResult::Canceled => {
            seq![
                Transfer {
                    to: poster,
                    amount: job.payment,
                    reason: TransferReason::JobPaymentReturn,
                },
            ] + (if job.external_worker_cspr_stake > 0 {
                shares(job.external_worker_cspr_stake)
            } else {
                Seq::empty()
            }) + seq![dos_refund]
        },
        VotingResult::QuorumNotReached => {
            seq![
                Transfer {
                    to: poster,
                    amount: job.payment,
                    reason: TransferReason::JobPaymentReturn,
                },
            ] + (if job.external_worker_cspr_stake > 0 {
                seq![
                    Transfer {
                        to: job.worker,
                        amount: job.external_worker_cspr_stake,
                        reason: TransferReason::BidStakeReturn,
                    },
                ]
            } else {
                Seq::empty()
            }) + seq![dos_refund]
        },
    }
}


/// Everything a settled formal escrow phase guarantees beyond the
/// engine's own settlement: the decided job and its offer close, and
/// the transfer orders are exactly the settlement of that job over
/// the holder table at settlement time.
pub open spec fn escrow_formal_ok(
    pre: BidEscrowContract,
    post: BidEscrowContract,
    post_r: ReputationContract,
    voting_id: VotingId,
    result: VotingResult,
    transfers: Seq<Transfer>,
) -> bool {
    let jobs = pre.bid_engine.jobs@;
    &&& ((forall|j: int| 0 <= j < jobs.len()
        ==> (#[trigger] jobs[j]).voting_id != Some(voting_id))
        ==> post.bid_engine == pre.bid_engine && transfers.len() == 0)
    &&& ((exists|j: int| 0 <= j < jobs.len()
        && (#[trigger] jobs[j]).voting_id == Some(voting_id))
        ==> exists|j: int|
        {
            let job = #[trigger] jobs[j];
            let offer = pre.bid_engine.job_offers@[job.job_offer_id as int];
            &&& 0 <= j < jobs.len()
            &&& job.voting_id == Some(voting_id)
            &&& (forall|u: int| 0 <= u < j
                ==> (#[trigger] jobs[u]).voting_id != Some(voting_id))
            &&& post.bid_engine.jobs@[j].status == if result == VotingResult::InFavor {
                JobStatus::Completed
            } else {
                JobStatus::Cancelled
            }
            &&& (result == VotingResult::InFavor
                && offer.status == JobOfferStatus::InProgress
                ==> post.bid_engine.job_offers@[job.job_offer_id as int].status
                    == JobOfferStatus::Completed)
            &&& exists|holders: Seq<(Address, Balance)>|
                {
                    &&& (forall|i: int| 0 <= i < holders.len()
                        ==> (#[trigger] holders[i]).1 == post_r.bal(holders[i].0.0 as int)
                            && holders[i].1 > 0)
                    &&& (forall|a: int| post_r.bal(a) > 0
                        ==> exists|i: int| 0 <= i < holders.len()
                            && (#[trigger] holders[i]).0.0 == a)
                    &&& transfers == settlement_transfers(
                        job,
                        offer.dos_fee,
                        offer.job_poster,
                        offer.configuration,
                        result,
                        holders,
                        post_r.reputation_storage.total_supply,
                    )
                }
        })
}

/// The contract that manages the full escrow process: it owns the bid
/// engine and the voting engine and wires a job's lifecycle through
/// them.
#[derive(Clone, PartialEq, Eq, Debug)]
pub struct BidEscrowContract {
    /// The bidding side.
    pub bid_engine: BidEngine,
    /// The voting side.
    pub voting_engine: VotingEngine,
}

impl BidEscrowContract {
    /// Well-formedness: both engines are sound and share the
    /// contract's own account.
    pub open spec fn wf(self) -> bool {
        &&& self.bid_engine.wf()
        &&& self.voting_engine.wf()
        &&& self.bid_engine.self_address == self.voting_engine.self_address
    }

    /// Creates the contract.
    pub fn new(self_address: Address, deployer: Address) -> (r: Self)
        ensures
            r.wf(),
            r.bid_engine.self_address == self_address,
            r.voting_engine.self_address == self_address,
    {
        BidEscrowContract {
            bid_engine: BidEngine::new(self_address, deployer),
            voting_engine: VotingEngine::new(self_address),
        }
    }

    /// Records the worker's proof and opens the voting round over it.
    /// The worker's stake becomes the round's first in-favor ballot:
    /// bound for an onboarded worker, unbound otherwise.
    pub fn submit_job_proof(
        &mut self,
        reputation: &mut ReputationContract,
        caller: Address,
        block_time: BlockTime,
        job_id: JobId,
        proof: crate::types::DocumentHash,
        configuration: Configuration,
    ) -> (r: Result<VotingId, Error>)
        requires
            old(self).wf(),
            old(reputation).wf(),
            configuration.wf(),
            !configuration.time_between_votings_doubled,
            block_time <= TIME_BOUND,
        ensures
            final(self).wf(),
            final(reputation).wf(),
            match r {
                Ok(voting_id) => {
                    let job = old(self).bid_engine.jobs@[job_id as int];
                    &&& job_id < old(self).bid_engine.jobs@.len()
                    &&& caller == job.worker
                    &&& job.status == JobStatus::Created
                    &&& voting_id == old(self).voting_engine.votings@.len()
                    &&& final(self).voting_engine.votings@.len()
                        == old(self).voting_engine.votings@.len() + 1
                    &&& final(self).bid_engine.jobs@[job_id as int].status
                        == JobStatus::Submitted
                    &&& final(self).bid_engine.jobs@[job_id as int].proof == Some(proof)
                    &&& final(self).bid_engine.jobs@[job_id as int].voting_id
                        == Some(voting_id)
                },
                Err(e) => {
                    let job = old(self).bid_engine.jobs@[job_id as int];
                    ||| (e == Error::JobNotFound
                        && job_id >= old(self).bid_engine.jobs@.len())
                    ||| (e == Error::JobAlreadySubmitted && job.status != JobStatus::Created)
                    ||| (e == Error::OnlyWorkerCanSubmitProof && caller != job.worker)
                    ||| (e == Error::ZeroStake
                        && job.stake > old(reputation).locked(job.worker.0 as int))
                    ||| (e == Error::NotWhitelisted
                        && !old(reputation).access_control.whitelist.contains_spec(
                        old(self).bid_engine.self_address,
                    ))
                    ||| (e == Error::StorageFull
                        && old(self).voting_engine.votings@.len() >= 0xFFFF_FFFF)
                },
            },
    {
        let job = match self.bid_engine.submit_job_proof(caller, job_id, proof) {
            Ok(job) => job,
            Err(e) => {
                return Err(e);
            }
        };
        // The stake moves from the bid to the voting round: the bid's
        // lock is released here and the first ballot locks it again.
        if job.stake > 0 {
            let caller_contract = self.bid_engine.self_address;
            let released = reputation.unstake_bid(
                caller_contract,
                crate::stakes::ShortenedBid {
                    bid_id: job.bid_id,
                    reputation_stake: job.stake,
                    worker: job.worker,
                },
            );
            if let Err(e) = released {
                return Err(e);
            }
        }
        proof {
            assert(old(reputation).locked(job.worker.0 as int)
                <= old(reputation).bal(job.worker.0 as int));
        }
        // The worker's first ballot is unbound unless they hold a
        // voting-associate token: unbound stake counts toward quorum
        // but is not locked in the ledger.
        let mut voting_configuration = configuration;
        voting_configuration.is_bid_escrow = true;
        voting_configuration.cast_first_vote = job.worker_is_va && job.stake > 0;
        let info = match self.voting_engine.create_voting(
            reputation,
            caller,
            true,
            job.stake,
            voting_configuration,
            block_time,
        ) {
            Ok(info) => info,
            Err(e) => {
                return Err(e);
            }
        };
        let linked = self.bid_engine.set_job_voting_id(job_id, info.voting_id);
        if let Err(e) = linked {
            return Err(e);
        }
        Ok(info.voting_id)
    }

    /// Casts a ballot over a job's proof. Neither the job's poster nor
    /// its worker may vote on it.
    pub fn vote(
        &mut self,
        reputation: &mut ReputationContract,
        caller: Address,
        voting_id: VotingId,
        voting_type: VotingType,
        choice: Choice,
        stake: Balance,
        block_time: BlockTime,
    ) -> (r: Result<crate::voting_events::BallotCast, Error>)
        requires
            old(self).wf(),
            old(reputation).wf(),
        ensures
            final(self).wf(),
            final(reputation).wf(),
            final(self).bid_engine == old(self).bid_engine,
            match r {
                Ok(cast) => (forall|j: int| 0 <= j < old(self).bid_engine.jobs@.len()
                    && (#[trigger] old(self).bid_engine.jobs@[j]).voting_id
                        == Some(voting_id)
                    ==> old(self).bid_engine.jobs@[j].poster != caller
                        && old(self).bid_engine.jobs@[j].worker != caller)
                    && cast == (crate::voting_events::BallotCast {
                    voter: caller,
                    voting_id,
                    voting_type,
                    choice,
                    stake,
                }) && VotingEngine::cast_effect(
                    old(self).voting_engine,
                    final(self).voting_engine,
                    *old(reputation),
                    *final(reputation),
                    caller,
                    voting_id,
                    choice,
                    stake,
                    old(self).voting_engine.votings@[
                        voting_id as int
                    ].is_informal_without_stake_spec(),
                ),
                Err(e) => final(self).voting_engine == old(self).voting_engine
                    && *final(reputation) == *old(reputation)
                    && ((e == Error::CannotVoteOnOwnJob && exists|j: int|
                        0 <= j < old(self).bid_engine.jobs@.len()
                            && (#[trigger] old(self).bid_engine.jobs@[j]).voting_id
                                == Some(voting_id)
                            && (old(self).bid_engine.jobs@[j].poster == caller
                                || old(self).bid_engine.jobs@[j].worker == caller))
                        || crate::voting_engine::vote_failure(
                        old(self).voting_engine,
                        *old(reputation),
                        caller,
                        voting_id,
                        voting_type,
                        stake,
                        block_time,
                        e,
                    )),
            },
    {
        // The job's parties may not vote on their own outcome.
        let mut j: usize = 0;
        let jobs_count = self.bid_engine.jobs.len();
        while j < jobs_count
            invariant
                *self == *old(self),
                old(self).wf(),
                old(reputation).wf(),
                *reputation == *old(reputation),
                jobs_count == self.bid_engine.jobs@.len(),
                j <= jobs_count,
                forall|i: int| 0 <= i < j
                    && (#[trigger] self.bid_engine.jobs@[i]).voting_id == Some(voting_id)
                    ==> self.bid_engine.jobs@[i].poster != caller
                        && self.bid_engine.jobs@[i].worker != caller,
            decreases jobs_count - j,
        {
            let job = self.bid_engine.jobs[j];
            if job.voting_id == Some(voting_id)
                && (job.poster == caller || job.worker == caller) {
                proof {
                    assert(old(self).bid_engine.jobs@[j as int].voting_id
                        == Some(voting_id));
                }
                return Err(Error::CannotVoteOnOwnJob);
            }
            j += 1;
        }
        self.voting_engine.vote(
            reputation,
            caller,
            voting_id,
            voting_type,
            choice,
            stake,
            block_time,
        )
    }

    /// Finishes a voting phase over a job: the round settles exactly
    /// as the engine's phase settlement states. When the formal phase
    /// resolves, the job and its offer close and the escrowed native
    /// currency settles: the payment splits (or returns), the deposit
    /// refunds, and the worker's currency stake returns or spreads
    /// over the holders.
    #[verifier::rlimit(100)]
    pub fn finish_voting(
        &mut self,
        reputation: &mut ReputationContract,
        voting_id: VotingId,
        voting_type: VotingType,
        block_time: BlockTime,
    ) -> (r: Result<(VotingSummary, Vec<Transfer>), Error>)
        requires
            old(self).wf(),
            old(reputation).wf(),
        ensures
            final(self).wf(),
            final(reputation).wf(),
            match r {
                Ok((summary, transfers)) => {
                    let bs = old(self).voting_engine.ballots_of(
                        voting_id as int,
                        voting_type,
                    );
                    let result = old(self).voting_engine.votings@[
                        voting_id as int
                    ].get_result_spec(bs.len() as u32);
                    let jobs = old(self).bid_engine.jobs@;
                    &&& summary.voting_id == voting_id
                    &&& summary.ty == voting_type
                    &&& summary.result == result
                    &&& match voting_type {
                        VotingType::Informal => (exists|
                            ended: crate::voting_events::VotingEnded,
                        | crate::voting_engine::informal_finish_ok(
                            old(self).voting_engine,
                            final(self).voting_engine,
                            *old(reputation),
                            *final(reputation),
                            voting_id,
                            block_time,
                            summary,
                            ended,
                        )) && final(self).bid_engine == old(self).bid_engine
                            && transfers@.len() == 0,
                        VotingType::Formal => (exists|
                            ended: crate::voting_events::VotingEnded,
                        | crate::voting_engine::formal_finish_ok(
                            old(self).voting_engine,
                            final(self).voting_engine,
                            *old(reputation),
                            *final(reputation),
                            voting_id,
                            block_time,
                            summary,
                            ended,
                        )) && escrow_formal_ok(
                            *old(self),
                            *final(self),
                            *final(reputation),
                            voting_id,
                            result,
                            transfers@,
                        ),
                    }
                },
                Err(e) => crate::voting_engine::finish_failure(
                    old(self).voting_engine,
                    *old(reputation),
                    voting_id,
                    voting_type,
                    block_time,
                    e,
                ) || (e == Error::JobOfferNotFound)
                    || (e == Error::InsufficientBalance
                        && voting_type == VotingType::Formal
                        && final(reputation).reputation_storage.total_supply == 0),
            },
    {
        let finished = self.voting_engine.finish_voting(
            reputation,
            voting_id,
            voting_type,
            block_time,
        );
        let (summary, ended) = match finished {
            Ok(ok) => ok,
            Err(e) => {
                return Err(e);
            }
        };
        proof {
            if voting_type == VotingType::Formal {
                assert(crate::voting_engine::formal_finish_ok(
                    old(self).voting_engine,
                    self.voting_engine,
                    *old(reputation),
                    *reputation,
                    voting_id,
                    block_time,
                    summary,
                    ended,
                ));
            } else {
                assert(crate::voting_engine::informal_finish_ok(
                    old(self).voting_engine,
                    self.voting_engine,
                    *old(reputation),
                    *reputation,
                    voting_id,
                    block_time,
                    summary,
                    ended,
                ));
            }
        }
        let no_transfers: Vec<Transfer> = Vec::new();
        if summary.voting_type() != VotingType::Formal {
            return Ok((summary, no_transfers));
        }
        // Find the job the settled round belongs to.
        let mut found: Option<usize> = None;
        let jobs_count = self.bid_engine.jobs.len();
        let mut j: usize = 0;
        while j < jobs_count
            invariant
                self.wf(),
                jobs_count == self.bid_engine.jobs@.len(),
                j <= jobs_count,
                found is None ==> forall|i: int| 0 <= i < j
                    ==> (#[trigger] self.bid_engine.jobs@[i]).voting_id
                        != Some(voting_id),
                match found {
                    Some(k) => k < jobs_count
                        && self.bid_engine.jobs@[k as int].voting_id == Some(voting_id)
                        && (forall|u: int| 0 <= u < k
                            ==> (#[trigger] self.bid_engine.jobs@[u]).voting_id
                                != Some(voting_id)),
                    None => true,
                },
            decreases jobs_count - j,
        {
            if found.is_none() {
                let job = self.bid_engine.jobs[j];
                if job.voting_id == Some(voting_id) {
                    found = Some(j);
                }
            }
            j += 1;
        }
        let job_index = match found {
            Some(k) => k,
            None => {
                return Ok((summary, no_transfers));
            }
        };
        let job = self.bid_engine.jobs[job_index];
        let offer = match self.bid_engine.get_job_offer_or_revert(&job.job_offer_id) {
            Ok(offer) => offer,
            Err(e) => {
                return Err(e);
            }
        };
        proof {
            assert(self.bid_engine.offer_wf(job.job_offer_id as int));
        }
        let settlement = Self::settle_job(
            &job,
            offer.dos_fee,
            offer.job_poster,
            &offer.configuration,
            summary.result(),
            reputation,
        );
        let transfers = match settlement {
            Ok(transfers) => transfers,
            Err(e) => {
                return Err(e);
            }
        };
        // The job and its offer reach their terminal states.
        let completed = summary.result() == VotingResult::InFavor;
        let updated = self.bid_engine.close_job(job_index as u32, completed);
        if let Err(e) = updated {
            return Err(e);
        }
        proof {
            let jobs = old(self).bid_engine.jobs@;
            let j = job_index as int;
            assert(jobs[j].voting_id == Some(voting_id));
            assert(escrow_formal_ok(
                *old(self),
                *self,
                *reputation,
                voting_id,
                summary.result,
                transfers@,
            ));
        }
        Ok((summary, transfers))
    }

    /// Computes the settlement transfers of a resolved job: who gets
    /// the escrowed payment, the worker's currency stake, and the
    /// poster's deposit. The pro-rata pools need a positive supply.
    fn settle_job(
        job: &Job,
        dos_fee: Balance,
        poster: Address,
        configuration: &Configuration,
        result: VotingResult,
        reputation: &ReputationContract,
    ) -> (r: Result<Vec<Transfer>, Error>)
        requires
            configuration.wf(),
            reputation.wf(),
        ensures
            match r {
                Ok(transfers) => exists|holders: Seq<(Address, Balance)>|
                    {
                        &&& (forall|i: int| 0 <= i < holders.len()
                            ==> (#[trigger] holders[i]).1
                                == reputation.bal(holders[i].0.0 as int)
                                && holders[i].1 > 0)
                        &&& (forall|a: int| reputation.bal(a) > 0
                            ==> exists|i: int| 0 <= i < holders.len()
                                && (#[trigger] holders[i]).0.0 == a)
                        &&& (forall|i: int, j: int| 0 <= i < j < holders.len()
                            ==> holders[i].0 != holders[j].0)
                        &&& transfers@ == settlement_transfers(
                            *job,
                            dos_fee,
                            poster,
                            *configuration,
                            result,
                            holders,
                            reputation.reputation_storage.total_supply,
                        )
                    },
                Err(e) => {
                    &&& e == Error::InsufficientBalance
                    &&& reputation.reputation_storage.total_supply == 0
                    &&& match result {
                        VotingResult::InFavor =>
                            crate::redistribution::PaymentSplit::split_spec(
                            job.payment,
                            *configuration,
                            job.worker_is_va,
                            job.onboard,
                        ).va_pool > 0,
                        VotingResult::Against | VotingResult::Canceled =>
                            job.external_worker_cspr_stake > 0,
                        VotingResult::QuorumNotReached => false,
                    }
                },
            },
    {
        let holders = reputation.all_balances();
        let ghost holder_seq = holders.balances@;
        let supply = holders.total_supply();
        proof {
            assert forall|i: int| 0 <= i < holder_seq.len()
                implies (#[trigger] holder_seq[i]).1 <= supply by {
                reputation.reputation_storage.lemma_balance_le_supply(
                    holder_seq[i].0.0 as int,
                );
            }
        }
        let mut transfers: Vec<Transfer> = Vec::new();
        match result {
            VotingResult::InFavor => {
                let split = PaymentSplit::split(
                    job.payment,
                    configuration,
                    job.worker_is_va,
                    job.onboard,
                );
                if split.va_pool > 0 && supply == 0 {
                    return Err(Error::InsufficientBalance);
                }
                transfers.push(Transfer {
                    to: configuration.bid_escrow_wallet_address,
                    amount: split.governance,
                    reason: TransferReason::GovernancePayment,
                });
                if split.worker > 0 {
                    transfers.push(Transfer {
                        to: job.worker,
                        amount: split.worker,
                        reason: TransferReason::WorkerPayment,
                    });
                }
                if split.va_pool > 0 {
                    let shares = redistribute_cspr_to_all_vas(split.va_pool, &holders);
                    let ghost before_shares = transfers@;
                    let mut k: usize = 0;
                    while k < shares.len()
                        invariant
                            k <= shares@.len(),
                            transfers@ == before_shares + shares@.take(k as int),
                        decreases shares@.len() - k,
                    {
                        transfers.push(shares[k]);
                        proof {
                            assert(transfers@
                                =~= before_shares + shares@.take(k + 1));
                        }
                        k += 1;
                    }
                    proof {
                        assert(shares@.take(shares@.len() as int) =~= shares@);
                    }
                }
                if job.external_worker_cspr_stake > 0 {
                    transfers.push(Transfer {
                        to: job.worker,
                        amount: job.external_worker_cspr_stake,
                        reason: TransferReason::BidStakeReturn,
                    });
                }
            }
            VotingResult::Against | VotingResult::Canceled => {
                if job.external_worker_cspr_stake > 0 && supply == 0 {
                    return Err(Error::InsufficientBalance);
                }
                transfers.push(Transfer {
                    to: poster,
                    amount: job.payment,
                    reason: TransferReason::JobPaymentReturn,
                });
                if job.external_worker_cspr_stake > 0 {
                    let shares = redistribute_cspr_to_all_vas(
                        job.external_worker_cspr_stake,
                        &holders,
                    );
                    let ghost before_shares = transfers@;
                    let mut k: usize = 0;
                    while k < shares.len()
                        invariant
                            k <= shares@.len(),
                            transfers@ == before_shares + shares@.take(k as int),
                        decreases shares@.len() - k,
                    {
                        transfers.push(shares[k]);
                        proof {
                            assert(transfers@
                                =~= before_shares + shares@.take(k + 1));
                        }
                        k += 1;
                    }
                    proof {
                        assert(shares@.take(shares@.len() as int) =~= shares@);
                    }
                }
            }
            VotingResult::QuorumNotReached => {
                transfers.push(Transfer {
                    to: poster,
                    amount: job.payment,
                    reason: TransferReason::JobPaymentReturn,
                });
                if job.external_worker_cspr_stake > 0 {
                    transfers.push(Transfer {
                        to: job.worker,
                        amount: job.external_worker_cspr_stake,
                        reason: TransferReason::BidStakeReturn,
                    });
                }
            }
        }
        // The poster's anti-spam deposit comes back in every outcome.
        transfers.push(Transfer {
            to: poster,
            amount: dos_fee,
            reason: TransferReason::DOSFeeReturn,
        });
        proof {
            assert(transfers@ =~= settlement_transfers(
                *job,
                dos_fee,
                poster,
                *configuration,
                result,
                holder_seq,
                reputation.reputation_storage.total_supply,
            ));
        }
        Ok(transfers)
    }
}

} // verus!
