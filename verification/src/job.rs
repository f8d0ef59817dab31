//! Jobs: created when a bid is picked; terminal once the voting round
//! over the submitted proof resolves.

use vstd::prelude::*;

verus! {

use crate::configuration::TIME_BOUND;
use crate::errors::Error;
use crate::types::Address;
use crate::types::Balance;
use crate::types::BidId;
use crate::types::BlockTime;
use crate::types::DocumentHash;
use crate::types::JobId;
use crate::types::JobOfferId;
use crate::types::VotingId;

/// Lifecycle of a job.
#[derive(Clone, Copy, PartialEq, Eq, Structural, Debug)]
pub enum JobStatus {
    /// Created; the worker has not submitted a proof yet.
    Created,
    /// A proof was submitted; a voting round decides the outcome.
    Submitted,
    /// The voting round resolved in the worker's favor.
    Completed,
    /// The job was reversed.
    Cancelled,
}

/// Everything needed to pick a bid and create its job.
#[derive(Clone, Copy, PartialEq, Eq, Structural, Debug)]
pub struct PickBidRequest {
    /// Identifier the new job will get.
    pub job_id: JobId,
    /// The offer the picked bid belongs to.
    pub job_offer_id: JobOfferId,
    /// The picked bid.
    pub bid_id: BidId,
    /// The account picking the bid.
    pub caller: Address,
    /// The offer's poster.
    pub poster: Address,
    /// The bid's worker.
    pub worker: Address,
    /// Whether the worker is an onboarded voting associate.
    pub is_worker_va: bool,
    /// Whether the worker asked to be onboarded on success.
    pub onboard: bool,
    /// Picking time.
    pub block_time: BlockTime,
    /// The bid's proposed timeframe.
    pub timeframe: BlockTime,
    /// The bid's proposed payment.
    pub payment: Balance,
    /// The native currency the poster transferred with the pick.
    pub transferred_cspr: Balance,
    /// The bid's reputation stake.
    pub stake: Balance,
    /// The bid's native-currency stake, zero for onboarded workers.
    pub external_worker_cspr_stake: Balance,
}

/// A picked bid turned into work in progress.
#[derive(Clone, Copy, PartialEq, Eq, Structural, Debug)]
pub struct Job {
    /// The job's identifier.
    pub job_id: JobId,
    /// The picked bid.
    pub bid_id: BidId,
    /// The offer the job came from.
    pub job_offer_id: JobOfferId,
    /// Lifecycle status.
    pub status: JobStatus,
    /// The working account.
    pub worker: Address,
    /// Whether the worker was onboarded when picked.
    pub worker_is_va: bool,
    /// Whether the worker asked to be onboarded on success.
    pub onboard: bool,
    /// The posting account.
    pub poster: Address,
    /// Deadline for submitting the proof.
    pub finish_time: BlockTime,
    /// The agreed payment.
    pub payment: Balance,
    /// The worker's reputation stake.
    pub stake: Balance,
    /// The worker's native-currency stake.
    pub external_worker_cspr_stake: Balance,
    /// The submitted proof, once there is one.
    pub proof: Option<DocumentHash>,
    /// The voting round the proof spawned, once there is one.
    pub voting_id: Option<VotingId>,
}

impl Job {
    /// Structural bounds of a stored job.
    pub open spec fn wf(self) -> bool {
        self.finish_time <= 2 * TIME_BOUND
    }

    /// Creates a job from a pick request. Only the poster may pick,
    /// and the transferred amount must match the bid's payment.
    pub fn new(request: &PickBidRequest) -> (r: Result<Job, Error>)
        requires
            request.block_time <= TIME_BOUND,
            request.timeframe <= TIME_BOUND,
        ensures
            match r {
                Ok(job) => {
                    &&& request.caller == request.poster
                    &&& request.transferred_cspr == request.payment
                    &&& job == (Job {
                        job_id: request.job_id,
                        bid_id: request.bid_id,
                        job_offer_id: request.job_offer_id,
                        status: JobStatus::Created,
                        worker: request.worker,
                        worker_is_va: request.is_worker_va,
                        onboard: request.onboard,
                        poster: request.poster,
                        finish_time: (request.block_time + request.timeframe) as u64,
                        payment: request.payment,
                        stake: request.stake,
                        external_worker_cspr_stake: request.external_worker_cspr_stake,
                        proof: Option::<DocumentHash>::None,
                        voting_id: Option::<VotingId>::None,
                    })
                    &&& job.wf()
                },
                Err(e) => {
                    &&& (e == Error::OnlyJobPosterCanPickABid
                        || e == Error::PurseBalanceMismatch)
                    &&& (e == Error::OnlyJobPosterCanPickABid
                        <==> request.caller != request.poster)
                    &&& (e == Error::PurseBalanceMismatch
                        <==> request.caller == request.poster
                            && request.transferred_cspr != request.payment)
                },
            },
    {
        if request.caller != request.poster {
            return Err(Error::OnlyJobPosterCanPickABid);
        }
        if request.transferred_cspr != request.payment {
            return Err(Error::PurseBalanceMismatch);
        }
        Ok(Job {
            job_id: request.job_id,
            bid_id: request.bid_id,
            job_offer_id: request.job_offer_id,
            status: JobStatus::Created,
            worker: request.worker,
            worker_is_va: request.is_worker_va,
            onboard: request.onboard,
            poster: request.poster,
            finish_time: request.block_time + request.timeframe,
            payment: request.payment,
            stake: request.stake,
            external_worker_cspr_stake: request.external_worker_cspr_stake,
            proof: None,
            voting_id: None,
        })
    }

    /// Records the worker's proof: allowed once, by the worker, while
    /// the job is still open.
    pub fn submit_proof(&mut self, caller: Address, proof: DocumentHash) -> (r: Result<
        (),
        Error,
    >)
        ensures
            match r {
                Ok(()) => {
                    &&& caller == old(self).worker
                    &&& old(self).status == JobStatus::Created
                    &&& *final(self) == (Job {
                        status: JobStatus::Submitted,
                        proof: Some(proof),
                        ..*old(self)
                    })
                },
                Err(e) => {
                    &&& *final(self) == *old(self)
                    &&& (e == Error::JobAlreadySubmitted
                        || e == Error::OnlyWorkerCanSubmitProof)
                    &&& (e == Error::JobAlreadySubmitted
                        <==> old(self).status != JobStatus::Created)
                    &&& (e == Error::OnlyWorkerCanSubmitProof
                        <==> old(self).status == JobStatus::Created
                            && caller != old(self).worker)
                },
            },
    {
        if self.status != JobStatus::Created {
            return Err(Error::JobAlreadySubmitted);
        }
        if caller != self.worker {
            return Err(Error::OnlyWorkerCanSubmitProof);
        }
        self.status = JobStatus::Submitted;
        self.proof = Some(proof);
        Ok(())
    }

    /// Whether `block_time` falls in the grace period: the window of
    /// one extra timeframe after the missed deadline, during which any
    /// KYC-verified account may take the job over.
    pub open spec fn in_grace_period_spec(self, block_time: BlockTime, timeframe: BlockTime) -> bool {
        self.finish_time <= block_time < self.finish_time + timeframe
    }

    /// Links the job to the voting round its proof spawned.
    pub fn set_voting_id(&mut self, voting_id: VotingId)
        ensures
            *final(self) == (Job { voting_id: Some(voting_id), ..*old(self) }),
    {
        self.voting_id = Some(voting_id);
    }
}

} // verus!
