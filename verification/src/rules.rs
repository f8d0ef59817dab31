//! The escrow's validation rules, each a small self-contained check
//! that either passes or names the exact error it aborts the call
//! with.

use vstd::prelude::*;

verus! {

use crate::configuration::Configuration;
use crate::errors::Error;
use crate::types::Address;
use crate::types::Balance;

/// A generic validation: a check that passes or aborts the call.
pub trait Validation {
    /// The verdict the rule reaches on its captured inputs.
    spec fn verdict(&self) -> Result<(), Error>;

    /// Returns the result of the validation.
    fn validate(&self) -> (r: Result<(), Error>)
        ensures
            r == self.verdict(),
    ;
}

/// Makes sure the job poster is the one who picks the bid.
/// May return `OnlyJobPosterCanPickABid`.
#[derive(Clone, Copy, PartialEq, Eq, Structural, Debug)]
pub struct CanPickBid {
    /// The account trying to pick.
    pub address: Address,
    /// The offer's poster.
    pub job_poster: Address,
}

impl Validation for CanPickBid {
    open spec fn verdict(&self) -> Result<(), Error> {
        if self.job_poster != self.address {
            Err(Error::OnlyJobPosterCanPickABid)
        } else {
            Ok(())
        }
    }

    fn validate(&self) -> (r: Result<(), Error>)
        ensures
            r == self.verdict(),
    {
        if self.job_poster != self.address {
            return Err(Error::OnlyJobPosterCanPickABid);
        }
        Ok(())
    }
}

/// Verifies that the proposed payment does not exceed the budget.
/// May return `PaymentExceedsMaxBudget`.
#[derive(Clone, Copy, PartialEq, Eq, Structural, Debug)]
pub struct DoesProposedPaymentExceedBudget {
    /// The bid's proposed payment.
    pub proposed_payment: Balance,
    /// The offer's maximum budget.
    pub max_budget: Balance,
}

impl Validation for DoesProposedPaymentExceedBudget {
    open spec fn verdict(&self) -> Result<(), Error> {
        if self.proposed_payment > self.max_budget {
            Err(Error::PaymentExceedsMaxBudget)
        } else {
            Ok(())
        }
    }

    fn validate(&self) -> (r: Result<(), Error>)
        ensures
            r == self.verdict(),
    {
        if self.proposed_payment > self.max_budget {
            return Err(Error::PaymentExceedsMaxBudget);
        }
        Ok(())
    }
}

/// Verifies that the transferred amount matches the proposed payment.
/// May return `PurseBalanceMismatch`.
#[derive(Clone, Copy, PartialEq, Eq, Structural, Debug)]
pub struct DoesProposedPaymentMatchTransferred {
    /// The bid's proposed payment.
    pub proposed_payment: Balance,
    /// The amount actually transferred.
    pub transferred: Balance,
}

impl Validation for DoesProposedPaymentMatchTransferred {
    open spec fn verdict(&self) -> Result<(), Error> {
        if self.proposed_payment != self.transferred {
            Err(Error::PurseBalanceMismatch)
        } else {
            Ok(())
        }
    }

    fn validate(&self) -> (r: Result<(), Error>)
        ensures
            r == self.verdict(),
    {
        if self.proposed_payment != self.transferred {
            return Err(Error::PurseBalanceMismatch);
        }
        Ok(())
    }
}

/// Makes sure the bidder is the one who cancels the bid.
/// May return `CannotCancelNotOwnedBid`.
#[derive(Clone, Copy, PartialEq, Eq, Structural, Debug)]
pub struct HasPermissionsToCancelBid {
    /// The account trying to cancel.
    pub canceller: Address,
    /// The bid's worker.
    pub bidder: Address,
}

impl Validation for HasPermissionsToCancelBid {
    open spec fn verdict(&self) -> Result<(), Error> {
        if self.canceller != self.bidder {
            Err(Error::CannotCancelNotOwnedBid)
        } else {
            Ok(())
        }
    }

    fn validate(&self) -> (r: Result<(), Error>)
        ensures
            r == self.verdict(),
    {
        if self.canceller != self.bidder {
            return Err(Error::CannotCancelNotOwnedBid);
        }
        Ok(())
    }
}

/// Makes sure the anti-spam deposit is high enough: its fiat value at
/// the captured rate must reach the configured floor.
/// May return `DosFeeTooLow`.
#[derive(Clone, Copy, PartialEq, Eq, Structural, Debug)]
pub struct IsDosFeeEnough {
    /// The frozen configuration snapshot.
    pub configuration: Configuration,
    /// The native-to-fiat rate at validation time.
    pub rate: u64,
    /// The attached deposit.
    pub dos_fee: Balance,
}

impl Validation for IsDosFeeEnough {
    open spec fn verdict(&self) -> Result<(), Error> {
        let fiat_value = Configuration::fiat_value_of(self.dos_fee, self.rate);
        if fiat_value > u64::MAX || fiat_value < self.configuration.post_job_dos_fee {
            Err(Error::DosFeeTooLow)
        } else {
            Ok(())
        }
    }

    fn validate(&self) -> (r: Result<(), Error>)
        ensures
            r == self.verdict(),
    {
        let fiat_value = match self.configuration.convert_to_fiat(self.dos_fee, self.rate) {
            Some(v) => v,
            None => {
                return Err(Error::DosFeeTooLow);
            }
        };
        if self.configuration.is_post_job_dos_fee_too_low(fiat_value) {
            return Err(Error::DosFeeTooLow);
        }
        Ok(())
    }
}

/// Makes sure the stake is non-zero: either a native-currency stake is
/// attached or a positive reputation stake. May return `ZeroStake`.
#[derive(Clone, Copy, PartialEq, Eq, Structural, Debug)]
pub struct IsStakeNonZero {
    /// The reputation staked.
    pub reputation_stake: Balance,
    /// The native currency staked, if any.
    pub cspr_stake: Option<Balance>,
}

impl Validation for IsStakeNonZero {
    open spec fn verdict(&self) -> Result<(), Error> {
        if self.cspr_stake is None && self.reputation_stake == 0 {
            Err(Error::ZeroStake)
        } else {
            Ok(())
        }
    }

    fn validate(&self) -> (r: Result<(), Error>)
        ensures
            r == self.verdict(),
    {
        if self.cspr_stake.is_none() && self.reputation_stake == 0 {
            return Err(Error::ZeroStake);
        }
        Ok(())
    }
}

/// Makes sure the user is KYC-verified. May return `NotKyced`.
#[derive(Clone, Copy, PartialEq, Eq, Structural, Debug)]
pub struct IsUserKyced {
    /// Whether the user holds a KYC token.
    pub verified: bool,
}

impl Validation for IsUserKyced {
    open spec fn verdict(&self) -> Result<(), Error> {
        if self.verified {
            Ok(())
        } else {
            Err(Error::NotKyced)
        }
    }

    fn validate(&self) -> (r: Result<(), Error>)
        ensures
            r == self.verdict(),
    {
        if self.verified {
            Ok(())
        } else {
            Err(Error::NotKyced)
        }
    }
}

} // verus!
