//! Onboarding requests: an external account asks to become a voting
//! associate, backing the request with a stake and a reasoning
//! document.

use vstd::prelude::*;

verus! {

use crate::errors::Error;
use crate::types::Address;
use crate::types::Balance;
use crate::types::DocumentHash;

/// Everything needed to file an onboarding request.
#[derive(Clone, Copy, PartialEq, Eq, Structural, Debug)]
pub struct OnboardingRequest {
    /// The requesting account.
    pub requestor: Address,
    /// The document motivating the request.
    pub reason: DocumentHash,
    /// The backing reputation stake.
    pub rep_stake: Balance,
    /// The backing native-currency deposit.
    pub cspr_deposit: Balance,
    /// Whether the requestor is already onboarded.
    pub is_va: bool,
    /// Whether an onboarding round for this account is already open.
    pub exists_ongoing_voting: bool,
    /// Whether the requestor passed KYC.
    pub is_kyced: bool,
}

/// A validated onboarding request.
#[derive(Clone, Copy, PartialEq, Eq, Structural, Debug)]
pub struct Request {
    /// The requesting account.
    pub creator: Address,
    /// The document motivating the request.
    pub reason: DocumentHash,
    /// The backing reputation stake.
    pub rep_stake: Balance,
    /// The backing native-currency deposit.
    pub cspr_deposit: Balance,
}

impl Request {
    /// Validates an onboarding request: the account must be
    /// KYC-verified, not already onboarded, and not already under an
    /// open onboarding round.
    pub fn new(request: OnboardingRequest) -> (r: Result<Request, Error>)
        ensures
            match r {
                Ok(req) => {
                    &&& request.is_kyced
                    &&& !request.is_va
                    &&& !request.exists_ongoing_voting
                    &&& req == (Request {
                        creator: request.requestor,
                        reason: request.reason,
                        rep_stake: request.rep_stake,
                        cspr_deposit: request.cspr_deposit,
                    })
                },
                Err(e) => {
                    &&& (e == Error::NotKyced <==> !request.is_kyced)
                    &&& (request.is_kyced && request.is_va
                        ==> e == Error::VaOnboardedAlready)
                    &&& (request.is_kyced && !request.is_va
                        && request.exists_ongoing_voting
                        ==> e == Error::VotingWithGivenTypeNotInProgress)
                },
            },
    {
        if !request.is_kyced {
            return Err(Error::NotKyced);
        }
        if request.is_va {
            return Err(Error::VaOnboardedAlready);
        }
        if request.exists_ongoing_voting {
            return Err(Error::VotingWithGivenTypeNotInProgress);
        }
        Ok(Request {
            creator: request.requestor,
            reason: request.reason,
            rep_stake: request.rep_stake,
            cspr_deposit: request.cspr_deposit,
        })
    }

    /// Gets the requesting account.
    pub fn creator(&self) -> (r: Address)
        ensures
            r == self.creator,
    {
        self.creator
    }

    /// Gets the motivating document.
    pub fn reason(&self) -> (r: &DocumentHash)
        ensures
            r == self.reason,
    {
        &self.reason
    }

    /// Gets the backing reputation stake.
    pub fn rep_stake(&self) -> (r: Balance)
        ensures
            r == self.rep_stake,
    {
        self.rep_stake
    }

    /// Gets the backing native-currency deposit.
    pub fn cspr_deposit(&self) -> (r: Balance)
        ensures
            r == self.cspr_deposit,
    {
        self.cspr_deposit
    }
}

} // verus!
