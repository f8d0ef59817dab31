//! The native-to-fiat rate provider: any account reads the rate, only
//! the owner updates it.

use vstd::prelude::*;

verus! {

use crate::access_control::Owner;
use crate::errors::Error;
use crate::types::Address;

/// Keeps the current native-to-fiat conversion rate.
#[derive(Clone, PartialEq, Eq, Debug)]
pub struct CSPRRateProviderContract {
    /// The ownership slot.
    pub owner: Owner,
    /// The current rate, in fiat units per `RATIO_SCALE` native units.
    pub rate: u64,
}

impl CSPRRateProviderContract {
    /// Creates the provider with `deployer` as owner and an initial
    /// rate.
    pub fn new(deployer: Address, rate: u64) -> (r: Self)
        ensures
            r.owner.owner == Some(deployer),
            r.rate == rate,
    {
        let mut owner = Owner::new();
        owner.init(deployer);
        CSPRRateProviderContract { owner, rate }
    }

    /// Gets the current rate.
    pub fn get_rate(&self) -> (r: u64)
        ensures
            r == self.rate,
    {
        self.rate
    }

    /// Updates the current rate; only the owner may call.
    pub fn set_rate(&mut self, caller: Address, rate: u64) -> (r: Result<(), Error>)
        ensures
            match r {
                Ok(()) => old(self).owner.owner == Some(caller)
                    && *final(self) == (CSPRRateProviderContract {
                        rate,
                        ..*old(self)
                    }),
                Err(e) => e == Error::NotAnOwner && *final(self) == *old(self)
                    && old(self).owner.owner != Some(caller),
            },
    {
        let allowed = self.owner.ensure_owner(caller);
        if let Err(e) = allowed {
            return Err(e);
        }
        self.rate = rate;
        Ok(())
    }

    /// Returns the current owner.
    pub fn get_owner(&self) -> (r: Option<Address>)
        ensures
            r == self.owner.owner,
    {
        self.owner.get_owner()
    }
}

} // verus!
