//! Job offers: the posting side of the escrow auction.
//!
//! An offer freezes a configuration snapshot at creation. Its auction
//! phase is a pure function of the snapshot and the start time: first
//! the internal window (onboarded workers, reputation stakes), then the
//! public window (external workers, native-currency stakes).

use vstd::prelude::*;

verus! {

use crate::configuration::Configuration;
use crate::configuration::TIME_BOUND;
use crate::errors::Error;
use crate::types::Address;
use crate::types::Balance;
use crate::types::BlockTime;
use crate::types::JobOfferId;

/// Lifecycle of a job offer.
#[derive(Clone, Copy, PartialEq, Eq, Structural, Debug)]
pub enum JobOfferStatus {
    /// Posted; bids may come in.
    Created,
    /// A bid was picked; the job is underway.
    InProgress,
    /// The job finished and was settled.
    Completed,
    /// The offer was withdrawn; every bid was reversed.
    Cancelled,
}

/// The auction phase an offer is in at some block time.
#[derive(Clone, Copy, PartialEq, Eq, Structural, Debug)]
pub enum AuctionState {
    /// No auction window is open.
    Closed,
    /// The window reserved to onboarded workers.
    Internal,
    /// The window open to external workers.
    Public,
}

/// Everything needed to post a job offer.
#[derive(Clone, Copy, PartialEq, Eq, Structural, Debug)]
pub struct PostJobOfferRequest {
    /// Identifier the new offer will get.
    pub job_offer_id: JobOfferId,
    /// Whether the poster passed KYC.
    pub job_poster_kyced: bool,
    /// The posting account.
    pub job_poster: Address,
    /// Maximum budget for the job.
    pub max_budget: Balance,
    /// Expected timeframe for completing the job.
    pub expected_timeframe: BlockTime,
    /// The attached anti-spam deposit.
    pub dos_fee: Balance,
    /// Posting time; the auction windows start here.
    pub start_time: BlockTime,
    /// The configuration snapshot frozen for this offer.
    pub configuration: Configuration,
}

/// A posted job offer. Immutable once created except for its status.
#[derive(Clone, Copy, PartialEq, Eq, Structural, Debug)]
pub struct JobOffer {
    /// The offer's identifier.
    pub job_offer_id: JobOfferId,
    /// The posting account.
    pub job_poster: Address,
    /// Maximum budget for the job.
    pub max_budget: Balance,
    /// Expected timeframe for completing the job.
    pub expected_timeframe: BlockTime,
    /// The attached anti-spam deposit.
    pub dos_fee: Balance,
    /// Lifecycle status.
    pub status: JobOfferStatus,
    /// Posting time.
    pub start_time: BlockTime,
    /// The frozen configuration snapshot.
    pub configuration: Configuration,
}

impl JobOffer {
    /// Structural bounds of a stored offer.
    pub open spec fn wf(self) -> bool {
        &&& self.configuration.wf()
        &&& self.start_time <= TIME_BOUND
        &&& self.expected_timeframe <= TIME_BOUND
    }

    /// The fiat value of the deposit at `rate` (fiat per
    /// `RATIO_SCALE` native units), rounded down.
    pub open spec fn dos_fee_accepted(request: PostJobOfferRequest, rate: u64) -> bool {
        &&& Configuration::fiat_value_of(request.dos_fee, rate) <= u64::MAX
        &&& Configuration::fiat_value_of(request.dos_fee, rate)
            >= request.configuration.post_job_dos_fee
    }

    /// Creates an offer from a posting request. The poster must be
    /// KYC-verified and the deposit's fiat value (at `rate`) must
    /// reach the configured floor.
    pub fn new(request: PostJobOfferRequest, rate: u64) -> (r: Result<JobOffer, Error>)
        requires
            request.configuration.wf(),
            request.start_time <= TIME_BOUND,
            request.expected_timeframe <= TIME_BOUND,
        ensures
            match r {
                Ok(offer) => {
                    &&& request.job_poster_kyced
                    &&& Self::dos_fee_accepted(request, rate)
                    &&& offer == (JobOffer {
                        job_offer_id: request.job_offer_id,
                        job_poster: request.job_poster,
                        max_budget: request.max_budget,
                        expected_timeframe: request.expected_timeframe,
                        dos_fee: request.dos_fee,
                        status: JobOfferStatus::Created,
                        start_time: request.start_time,
                        configuration: request.configuration,
                    })
                    &&& offer.wf()
                },
                Err(e) => {
                    &&& (e == Error::NotKyced || e == Error::DosFeeTooLow)
                    &&& (e == Error::NotKyced <==> !request.job_poster_kyced)
                    &&& (e == Error::DosFeeTooLow
                        ==> !Self::dos_fee_accepted(request, rate))
                },
            },
    {
        if !request.job_poster_kyced {
            return Err(Error::NotKyced);
        }
        let fiat_value = match request.configuration.convert_to_fiat(request.dos_fee, rate) {
            Some(v) => v,
            None => {
                return Err(Error::DosFeeTooLow);
            }
        };
        if request.configuration.is_post_job_dos_fee_too_low(fiat_value) {
            return Err(Error::DosFeeTooLow);
        }
        Ok(JobOffer {
            job_offer_id: request.job_offer_id,
            job_poster: request.job_poster,
            max_budget: request.max_budget,
            expected_timeframe: request.expected_timeframe,
            dos_fee: request.dos_fee,
            status: JobOfferStatus::Created,
            start_time: request.start_time,
            configuration: request.configuration,
        })
    }

    /// The auction phase at `block_time`, derived from the snapshot.
    pub open spec fn auction_state_spec(self, block_time: BlockTime) -> AuctionState {
        let internal_end = self.start_time + self.configuration.internal_auction_time;
        let public_end = internal_end + self.configuration.public_auction_time;
        if self.start_time <= block_time && block_time < internal_end {
            AuctionState::Internal
        } else if internal_end <= block_time && block_time < public_end {
            AuctionState::Public
        } else {
            AuctionState::Closed
        }
    }

    /// Returns the auction phase at `block_time`.
    pub fn auction_state(&self, block_time: BlockTime) -> (r: AuctionState)
        requires
            self.wf(),
        ensures
            r == self.auction_state_spec(block_time),
    {
        let internal_end = self.start_time + self.configuration.internal_auction_time;
        let public_end = internal_end + self.configuration.public_auction_time;
        if self.start_time <= block_time && block_time < internal_end {
            AuctionState::Internal
        } else if internal_end <= block_time && block_time < public_end {
            AuctionState::Public
        } else {
            AuctionState::Closed
        }
    }

    /// Marks the offer in progress once a bid is picked.
    pub fn in_progress(&mut self)
        ensures
            *final(self) == (JobOffer { status: JobOfferStatus::InProgress, ..*old(self) }),
    {
        self.status = JobOfferStatus::InProgress;
    }

    /// Withdraws the offer. Only the poster, and only while no bid has
    /// been picked.
    pub fn cancel(&mut self, caller: Address) -> (r: Result<(), Error>)
        ensures
            match r {
                Ok(()) => {
                    &&& caller == old(self).job_poster
                    &&& old(self).status == JobOfferStatus::Created
                    &&& *final(self) == (JobOffer {
                        status: JobOfferStatus::Cancelled,
                        ..*old(self)
                    })
                },
                Err(e) => {
                    &&& *final(self) == *old(self)
                    &&& (e == Error::CannotCancelNotOwnedJobOffer
                        <==> caller != old(self).job_poster)
                    &&& ((e == Error::CannotCancelNotOwnedJobOffer
                        && caller != old(self).job_poster)
                        || (e == Error::JobOfferNotCancellable
                            && old(self).status != JobOfferStatus::Created))
                },
            },
    {
        if caller != self.job_poster {
            return Err(Error::CannotCancelNotOwnedJobOffer);
        }
        if self.status != JobOfferStatus::Created {
            return Err(Error::JobOfferNotCancellable);
        }
        self.status = JobOfferStatus::Cancelled;
        Ok(())
    }
}

} // verus!
