//! Bids: a worker's offer to complete a job, staking reputation or
//! native currency — never both.

use vstd::prelude::*;

verus! {

use crate::configuration::TIME_BOUND;
use crate::errors::Error;
use crate::job_offer::AuctionState;
use crate::job_offer::JobOfferStatus;
use crate::stakes::ShortenedBid;
use crate::types::Address;
use crate::types::Balance;
use crate::types::BidId;
use crate::types::BlockTime;
use crate::types::JobOfferId;

/// Lifecycle of a bid. A bid is never deleted; the escrow keeps an
/// append-only ledger for auditability.
#[derive(Clone, Copy, PartialEq, Eq, Structural, Debug)]
pub enum BidStatus {
    /// Submitted and still open.
    Created,
    /// Chosen by the job poster.
    Picked,
    /// Another bid was picked.
    Rejected,
    /// Withdrawn by the bidder, or reversed by a cancellation.
    Cancelled,
}

/// Everything needed to submit a bid.
#[derive(Clone, Copy, PartialEq, Eq, Structural, Debug)]
pub struct SubmitBidRequest {
    /// Identifier the new bid will get.
    pub bid_id: BidId,
    /// Submission time.
    pub timestamp: BlockTime,
    /// The offer the bid is for.
    pub job_offer_id: JobOfferId,
    /// Proposed timeframe for completing the job.
    pub proposed_timeframe: BlockTime,
    /// Proposed payment.
    pub proposed_payment: Balance,
    /// Reputation staked on the bid (zero when staking currency).
    pub reputation_stake: Balance,
    /// Native currency staked on the bid, if any.
    pub cspr_stake: Option<Balance>,
    /// Whether the worker asks to be onboarded on success.
    pub onboard: bool,
    /// The bidding worker.
    pub worker: Address,
    /// Whether the worker passed KYC.
    pub worker_kyced: bool,
    /// Whether the worker is an onboarded voting associate.
    pub worker_is_va: bool,
    /// The offer's poster.
    pub job_poster: Address,
    /// The offer's maximum budget.
    pub max_budget: Balance,
    /// The auction phase at submission time.
    pub auction_state: AuctionState,
    /// Whether the snapshot lets onboarded workers bid publicly.
    pub va_can_bid_on_public_auction: bool,
}

/// A worker's bid on a job offer.
#[derive(Clone, Copy, PartialEq, Eq, Structural, Debug)]
pub struct Bid {
    /// The bid's identifier.
    pub bid_id: BidId,
    /// Lifecycle status.
    pub status: BidStatus,
    /// Submission time.
    pub timestamp: BlockTime,
    /// The offer the bid is for.
    pub job_offer_id: JobOfferId,
    /// Proposed timeframe for completing the job.
    pub proposed_timeframe: BlockTime,
    /// Proposed payment.
    pub proposed_payment: Balance,
    /// Reputation staked on the bid.
    pub reputation_stake: Balance,
    /// Native currency staked on the bid, if any.
    pub cspr_stake: Option<Balance>,
    /// Whether the worker asks to be onboarded on success.
    pub onboard: bool,
    /// The bidding worker.
    pub worker: Address,
}

/// The submission rules of the two auction windows: an internal
/// auction admits only onboarded workers; a public auction admits
/// them only when the snapshot allows it.
pub open spec fn auction_admits(request: SubmitBidRequest) -> Result<(), Error> {
    match request.auction_state {
        AuctionState::Internal => if !request.worker_is_va {
            Err(Error::OnlyOnboardedWorkerCanBid)
        } else {
            Ok(())
        },
        AuctionState::Public => if request.worker_is_va
            && !request.va_can_bid_on_public_auction {
            Err(Error::OnboardedWorkerCannotBid)
        } else {
            Ok(())
        },
        AuctionState::Closed => Err(Error::AuctionNotRunning),
    }
}

impl Bid {
    /// Structural bounds of a stored bid.
    pub open spec fn wf(self) -> bool {
        &&& self.timestamp <= TIME_BOUND
        &&& self.proposed_timeframe <= TIME_BOUND
    }

    /// Creates a bid from a submission request, enforcing the rules of
    /// spam-free bidding: the worker is KYC-verified, does not bid on
    /// their own offer, does not onboard twice, stays within the
    /// budget, fits the open auction window, and stakes something.
    pub fn new(request: SubmitBidRequest) -> (r: Result<Bid, Error>)
        requires
            request.timestamp <= TIME_BOUND,
            request.proposed_timeframe <= TIME_BOUND,
        ensures
            match r {
                Ok(bid) => {
                    &&& request.worker_kyced
                    &&& request.worker != request.job_poster
                    &&& !(request.onboard && request.worker_is_va)
                    &&& request.proposed_payment <= request.max_budget
                    &&& auction_admits(request) is Ok
                    &&& (request.cspr_stake is Some || request.reputation_stake > 0)
                    &&& bid == (Bid {
                        bid_id: request.bid_id,
                        status: BidStatus::Created,
                        timestamp: request.timestamp,
                        job_offer_id: request.job_offer_id,
                        proposed_timeframe: request.proposed_timeframe,
                        proposed_payment: request.proposed_payment,
                        reputation_stake: request.reputation_stake,
                        cspr_stake: request.cspr_stake,
                        onboard: request.onboard,
                        worker: request.worker,
                    })
                    &&& bid.wf()
                },
                Err(e) => {
                    &&& (e == Error::NotKyced <==> !request.worker_kyced)
                    &&& ((e == Error::NotKyced && !request.worker_kyced)
                        || (e == Error::CannotBidOnOwnJob
                            && request.worker == request.job_poster)
                        || (e == Error::VaOnboardedAlready
                            && request.onboard && request.worker_is_va)
                        || (e == Error::PaymentExceedsMaxBudget
                            && request.proposed_payment > request.max_budget)
                        || auction_admits(request) == Result::<(), Error>::Err(e)
                        || (e == Error::ZeroStake && request.cspr_stake is None
                            && request.reputation_stake == 0))
                },
            },
    {
        if !request.worker_kyced {
            return Err(Error::NotKyced);
        }
        if request.worker == request.job_poster {
            return Err(Error::CannotBidOnOwnJob);
        }
        if request.onboard && request.worker_is_va {
            return Err(Error::VaOnboardedAlready);
        }
        if request.proposed_payment > request.max_budget {
            return Err(Error::PaymentExceedsMaxBudget);
        }
        match request.auction_state {
            AuctionState::Internal => {
                if !request.worker_is_va {
                    return Err(Error::OnlyOnboardedWorkerCanBid);
                }
            }
            AuctionState::Public => {
                if request.worker_is_va && !request.va_can_bid_on_public_auction {
                    return Err(Error::OnboardedWorkerCannotBid);
                }
            }
            AuctionState::Closed => {
                return Err(Error::AuctionNotRunning);
            }
        }
        if request.cspr_stake.is_none() && request.reputation_stake == 0 {
            return Err(Error::ZeroStake);
        }
        Ok(Bid {
            bid_id: request.bid_id,
            status: BidStatus::Created,
            timestamp: request.timestamp,
            job_offer_id: request.job_offer_id,
            proposed_timeframe: request.proposed_timeframe,
            proposed_payment: request.proposed_payment,
            reputation_stake: request.reputation_stake,
            cspr_stake: request.cspr_stake,
            onboard: request.onboard,
            worker: request.worker,
        })
    }

    /// Withdraws the bid. Only the bidder, only while the offer is
    /// still open, only while the bid itself is still open, and only
    /// after the acceptance timeout has elapsed since submission.
    pub fn cancel(
        &mut self,
        caller: Address,
        job_offer_status: JobOfferStatus,
        block_time: BlockTime,
        va_bid_acceptance_timeout: BlockTime,
    ) -> (r: Result<(), Error>)
        requires
            old(self).wf(),
            va_bid_acceptance_timeout <= TIME_BOUND,
        ensures
            match r {
                Ok(()) => {
                    &&& caller == old(self).worker
                    &&& job_offer_status == JobOfferStatus::Created
                    &&& old(self).status == BidStatus::Created
                    &&& block_time >= old(self).timestamp + va_bid_acceptance_timeout
                    &&& *final(self) == (Bid { status: BidStatus::Cancelled, ..*old(self) })
                },
                Err(e) => {
                    &&& *final(self) == *old(self)
                    &&& (e == Error::CannotCancelNotOwnedBid
                        <==> caller != old(self).worker)
                    &&& ((e == Error::CannotCancelNotOwnedBid
                        && caller != old(self).worker)
                        || (e == Error::CannotCancelBidOnCompletedJobOffer
                            && (job_offer_status != JobOfferStatus::Created
                                || old(self).status != BidStatus::Created))
                        || (e == Error::CannotCancelBidBeforeAcceptanceTimeout
                            && block_time
                                < old(self).timestamp + va_bid_acceptance_timeout))
                },
            },
    {
        if caller != self.worker {
            return Err(Error::CannotCancelNotOwnedBid);
        }
        if job_offer_status != JobOfferStatus::Created || self.status != BidStatus::Created {
            return Err(Error::CannotCancelBidOnCompletedJobOffer);
        }
        if block_time < self.timestamp + va_bid_acceptance_timeout {
            return Err(Error::CannotCancelBidBeforeAcceptanceTimeout);
        }
        self.status = BidStatus::Cancelled;
        Ok(())
    }

    /// Marks the bid picked.
    pub fn picked(&mut self)
        ensures
            *final(self) == (Bid { status: BidStatus::Picked, ..*old(self) }),
    {
        self.status = BidStatus::Picked;
    }

    /// Rejects the bid without validation (another bid was picked).
    pub fn reject_without_validation(&mut self)
        ensures
            *final(self) == (Bid { status: BidStatus::Rejected, ..*old(self) }),
    {
        self.status = BidStatus::Rejected;
    }

    /// Cancels the bid without validation (the offer was reversed).
    pub fn cancel_without_validation(&mut self)
        ensures
            *final(self) == (Bid { status: BidStatus::Cancelled, ..*old(self) }),
    {
        self.status = BidStatus::Cancelled;
    }

    /// The ledger-facing projection of the bid.
    pub fn shortened(&self) -> (r: ShortenedBid)
        ensures
            r == (ShortenedBid {
                bid_id: self.bid_id,
                reputation_stake: self.reputation_stake,
                worker: self.worker,
            }),
    {
        ShortenedBid {
            bid_id: self.bid_id,
            reputation_stake: self.reputation_stake,
            worker: self.worker,
        }
    }
}

} // verus!
