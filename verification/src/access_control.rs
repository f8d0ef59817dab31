//! Ownership and whitelisting: every mutating ledger operation is gated
//! on a whitelist of subsystem callers, and the whitelist itself is
//! gated on the owner.

use vstd::prelude::*;

verus! {

use crate::errors::Error;
use crate::types::Address;

broadcast use vstd::seq_lib::lemma_seq_contains_after_push;

/// Keeps the contract owner.
#[derive(Clone, PartialEq, Eq, Structural, Debug)]
pub struct Owner {
    /// The current owner, if initialized.
    pub owner: Option<Address>,
}

impl Owner {
    /// Creates an uninitialized owner slot.
    pub fn new() -> (r: Self)
        ensures
            r.owner is None,
    {
        Owner { owner: None }
    }

    /// Sets the owner unconditionally (used by constructors).
    pub fn init(&mut self, owner: Address)
        ensures
            final(self).owner == Some(owner),
    {
        self.owner = Some(owner);
    }

    /// Returns the current owner.
    pub fn get_owner(&self) -> (r: Option<Address>)
        ensures
            r == self.owner,
    {
        self.owner
    }

    /// Fails with `NotAnOwner` unless `caller` is the owner.
    pub fn ensure_owner(&self, caller: Address) -> (r: Result<(), Error>)
        ensures
            r is Ok <==> self.owner == Some(caller),
            r is Err ==> r == Result::<(), Error>::Err(Error::NotAnOwner),
    {
        match self.owner {
            Some(o) if o == caller => Ok(()),
            _ => Err(Error::NotAnOwner),
        }
    }
}

/// Keeps the list of whitelisted subsystem callers.
#[derive(Clone, PartialEq, Eq, Debug)]
pub struct Whitelist {
    /// The whitelisted accounts.
    pub entries: Vec<Address>,
}

impl Whitelist {
    /// Whether `address` is whitelisted.
    pub open spec fn contains_spec(self, address: Address) -> bool {
        self.entries@.contains(address)
    }

    /// Creates an empty whitelist.
    pub fn new() -> (r: Self)
        ensures
            r.entries@ =~= Seq::<Address>::empty(),
    {
        Whitelist { entries: Vec::new() }
    }

    /// Adds `address` to the whitelist.
    pub fn add_to_whitelist(&mut self, address: Address)
        ensures
            final(self).contains_spec(address),
            forall|a: Address| old(self).contains_spec(a) ==> final(self).contains_spec(a),
            forall|a: Address|
                final(self).contains_spec(a) ==> old(self).contains_spec(a) || a == address,
    {
        if !self.is_whitelisted(address) {
            self.entries.push(address);
            assert(self.entries@.last() == address);
        }
    }

    /// Removes `address` from the whitelist.
    pub fn remove_from_whitelist(&mut self, address: Address)
        ensures
            !final(self).contains_spec(address),
            forall|a: Address|
                a != address ==> (final(self).contains_spec(a) == old(self).contains_spec(a)),
    {
        let mut kept: Vec<Address> = Vec::new();
        let mut i: usize = 0;
        while i < self.entries.len()
            invariant
                i <= self.entries.len(),
                forall|a: Address| #[trigger] kept@.contains(a)
                    ==> self.entries@.contains(a) && a != address,
                forall|j: int| 0 <= j < i && self.entries@[j] != address
                    ==> kept@.contains(self.entries@[j]),
            decreases self.entries.len() - i,
        {
            let entry = self.entries[i];
            if entry != address {
                kept.push(entry);
                assert(kept@.last() == entry);
            }
            i += 1;
        }
        self.entries = kept;
    }

    /// Whether `address` is whitelisted.
    pub fn is_whitelisted(&self, address: Address) -> (r: bool)
        ensures
            r == self.contains_spec(address),
    {
        let mut i: usize = 0;
        while i < self.entries.len()
            invariant
                i <= self.entries.len(),
                forall|j: int| 0 <= j < i ==> self.entries@[j] != address,
            decreases self.entries.len() - i,
        {
            if self.entries[i] == address {
                return true;
            }
            i += 1;
        }
        false
    }
}

/// Owner plus whitelist, as embedded by every contract.
#[derive(Clone, PartialEq, Eq, Debug)]
pub struct AccessControl {
    /// The ownership slot.
    pub owner: Owner,
    /// The whitelist of privileged callers.
    pub whitelist: Whitelist,
}

impl AccessControl {
    /// Creates an uninitialized access control block.
    pub fn new() -> (r: Self)
        ensures
            r.owner.owner is None,
            forall|a: Address| !r.whitelist.contains_spec(a),
    {
        AccessControl { owner: Owner::new(), whitelist: Whitelist::new() }
    }

    /// Sets `deployer` as owner and whitelists them.
    pub fn init(&mut self, deployer: Address)
        ensures
            final(self).owner.owner == Some(deployer),
            final(self).whitelist.contains_spec(deployer),
            forall|a: Address| old(self).whitelist.contains_spec(a)
                ==> final(self).whitelist.contains_spec(a),
    {
        self.owner.init(deployer);
        self.whitelist.add_to_whitelist(deployer);
    }

    /// Transfers ownership to `owner`; only the current owner may call.
    pub fn change_ownership(&mut self, caller: Address, owner: Address) -> (r: Result<(), Error>)
        ensures
            match r {
                Ok(()) => old(self).owner.owner == Some(caller)
                    && final(self).owner.owner == Some(owner)
                    && final(self).whitelist == old(self).whitelist,
                Err(e) => e == Error::NotAnOwner
                    && old(self).owner.owner != Some(caller)
                    && *final(self) == *old(self),
            },
    {
        let check = self.owner.ensure_owner(caller);
        match check {
            Ok(()) => {
                self.owner.init(owner);
                Ok(())
            }
            Err(e) => Err(e),
        }
    }

    /// Adds `address` to the whitelist; only the owner may call.
    pub fn add_to_whitelist(&mut self, caller: Address, address: Address) -> (r: Result<
        (),
        Error,
    >)
        ensures
            match r {
                Ok(()) => {
                    &&& old(self).owner.owner == Some(caller)
                    &&& final(self).whitelist.contains_spec(address)
                    &&& forall|a: Address| old(self).whitelist.contains_spec(a)
                        ==> final(self).whitelist.contains_spec(a)
                    &&& forall|a: Address| final(self).whitelist.contains_spec(a)
                        ==> old(self).whitelist.contains_spec(a) || a == address
                    &&& final(self).owner == old(self).owner
                },
                Err(e) => e == Error::NotAnOwner
                    && old(self).owner.owner != Some(caller)
                    && *final(self) == *old(self),
            },
    {
        let check = self.owner.ensure_owner(caller);
        match check {
            Ok(()) => {
                self.whitelist.add_to_whitelist(address);
                Ok(())
            }
            Err(e) => Err(e),
        }
    }

    /// Removes `address` from the whitelist; only the owner may call.
    pub fn remove_from_whitelist(&mut self, caller: Address, address: Address) -> (r: Result<
        (),
        Error,
    >)
        ensures
            match r {
                Ok(()) => {
                    &&& old(self).owner.owner == Some(caller)
                    &&& !final(self).whitelist.contains_spec(address)
                    &&& forall|a: Address| a != address
                        ==> final(self).whitelist.contains_spec(a)
                            == old(self).whitelist.contains_spec(a)
                    &&& final(self).owner == old(self).owner
                },
                Err(e) => e == Error::NotAnOwner
                    && old(self).owner.owner != Some(caller)
                    && *final(self) == *old(self),
            },
    {
        let check = self.owner.ensure_owner(caller);
        match check {
            Ok(()) => {
                self.whitelist.remove_from_whitelist(address);
                Ok(())
            }
            Err(e) => Err(e),
        }
    }

    /// Whether `address` is whitelisted.
    pub fn is_whitelisted(&self, address: Address) -> (r: bool)
        ensures
            r == self.whitelist.contains_spec(address),
    {
        self.whitelist.is_whitelisted(address)
    }

    /// Returns the current owner.
    pub fn get_owner(&self) -> (r: Option<Address>)
        ensures
            r == self.owner.owner,
    {
        self.owner.get_owner()
    }

    /// Fails with `NotWhitelisted` unless `caller` is whitelisted.
    pub fn ensure_whitelisted(&self, caller: Address) -> (r: Result<(), Error>)
        ensures
            r is Ok <==> self.whitelist.contains_spec(caller),
            r is Err ==> r == Result::<(), Error>::Err(Error::NotWhitelisted),
    {
        if self.whitelist.is_whitelisted(caller) {
            Ok(())
        } else {
            Err(Error::NotWhitelisted)
        }
    }
}

} // verus!
