//! The call-aborting error kinds. Every validation failure surfaces a
//! distinct kind; the host discards all state changes of a failed call,
//! so no error here is recoverable inside the core.

use vstd::prelude::*;

verus! {

/// Non-recoverable, call-aborting signals.
#[derive(Clone, Copy, PartialEq, Eq, Structural, Debug)]
pub enum Error {
    // Validation errors.
    /// A stake of zero was offered where a positive stake is required.
    ZeroStake,
    /// The account's unlocked reputation does not cover the requested stake.
    InsufficientBalance,
    /// A bid's proposed payment exceeds the job offer's maximum budget.
    PaymentExceedsMaxBudget,
    /// The anti-spam deposit converts to less fiat than the configured floor.
    DosFeeTooLow,
    /// The transferred amount does not match the picked bid's payment.
    PurseBalanceMismatch,

    // Authorization errors.
    /// The caller is not on the whitelist of privileged subsystem callers.
    NotWhitelisted,
    /// The caller is not the contract owner.
    NotAnOwner,
    /// Only the job poster may pick a bid on their offer.
    OnlyJobPosterCanPickABid,
    /// Only the bidder may cancel their own bid.
    CannotCancelNotOwnedBid,
    /// Only the job poster may cancel their own job offer.
    CannotCancelNotOwnedJobOffer,
    /// The caller has not passed the KYC check.
    NotKyced,
    /// The job poster may not bid on their own job offer.
    CannotBidOnOwnJob,
    /// An onboarded account asked to be onboarded again.
    VaOnboardedAlready,
    /// The subject of a slashing round may not vote in it.
    SubjectOfSlashing,
    /// Neither the job's poster nor its worker may vote on the job.
    CannotVoteOnOwnJob,
    /// Only an onboarded voting associate may perform this action.
    NotOnboarded,
    /// Only the assigned worker may submit the proof before the grace period.
    OnlyWorkerCanSubmitProof,

    // State errors.
    /// No auction phase is running at the current block time.
    AuctionNotRunning,
    /// During the internal auction only onboarded workers may bid.
    OnlyOnboardedWorkerCanBid,
    /// During the public auction onboarded workers may not bid
    /// (unless the configuration allows it).
    OnboardedWorkerCannotBid,
    /// The voting round is not currently in the given phase.
    VotingWithGivenTypeNotInProgress,
    /// The voting round already finished or was canceled.
    FinishingCompletedVotingNotAllowed,
    /// A ballot was cast outside the active phase's time window.
    VoteOnCompletedVotingNotAllowed,
    /// The voter already cast a ballot in this round and phase.
    CannotVoteTwice,
    /// The formal phase's end time has not been reached yet.
    FormalVotingNotYetFinished,
    /// The informal phase's end time has not been reached yet.
    InformalVotingNotYetFinished,
    /// The job's proof was already submitted.
    JobAlreadySubmitted,
    /// The grace period has not started or is already over.
    GracePeriodNotStarted,
    /// A bid on an already settled job offer cannot be cancelled.
    CannotCancelBidOnCompletedJobOffer,
    /// A job offer with a picked bid can no longer be cancelled.
    JobOfferNotCancellable,
    /// The bid acceptance timeout has not elapsed yet.
    CannotCancelBidBeforeAcceptanceTimeout,
    /// An identifier space or tally reached its capacity bound.
    StorageFull,
    /// A future configuration value cannot activate in the past.
    ActivationTimeInPast,
    /// A stored configuration record was expected but missing.
    KeyValueStorageError,
    /// A native-currency transfer failed on the host side.
    TransferError,

    // Not-found errors.
    /// No bid with the given identifier.
    BidNotFound,
    /// No job offer with the given identifier.
    JobOfferNotFound,
    /// No job with the given identifier.
    JobNotFound,
    /// No voting round with the given identifier.
    VotingDoesNotExist,
}

} // verus!
