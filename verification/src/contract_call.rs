//! A serializable description of a contract call: the action a passed
//! formal voting round asks the host to perform.

use vstd::prelude::*;

verus! {

use crate::types::Address;
use crate::types::Balance;

/// One named argument of a contract call.
#[derive(Clone, Copy, PartialEq, Eq, Structural, Debug)]
pub enum CallArgValue {
    /// An account or contract argument.
    Account(Address),
    /// An amount argument.
    Amount(Balance),
}

/// The named arguments of a contract call, in order.
#[derive(Clone, PartialEq, Eq, Debug)]
pub struct CallArgs {
    /// (name, value) pairs.
    pub args: Vec<(&'static str, CallArgValue)>,
}

impl CallArgs {
    /// Creates an empty argument list.
    pub fn new() -> (r: Self)
        ensures
            r.args@.len() == 0,
    {
        CallArgs { args: Vec::new() }
    }

    /// Appends a named argument.
    pub fn insert(&mut self, name: &'static str, value: CallArgValue)
        ensures
            final(self).args@ == old(self).args@.push((name, value)),
    {
        self.args.push((name, value));
    }
}

/// A contract call the host performs when a voting round passes.
#[derive(Clone, PartialEq, Eq, Debug)]
pub struct ContractCall {
    /// The contract to call.
    pub address: Address,
    /// The entry point to invoke.
    pub entry_point: &'static str,
    /// The call's named arguments.
    pub call_args: CallArgs,
    /// The native currency attached to the call, if any.
    pub amount: Option<Balance>,
}

impl ContractCall {
    /// Gets the contract call's address.
    pub fn address(&self) -> (r: &Address)
        ensures
            r == self.address,
    {
        &self.address
    }

    /// Gets the contract call's entry point.
    pub fn entry_point(&self) -> (r: &'static str)
        ensures
            r == self.entry_point,
    {
        self.entry_point
    }

    /// Gets a reference to the contract call's arguments.
    pub fn call_args(&self) -> (r: &CallArgs)
        ensures
            r == self.call_args,
    {
        &self.call_args
    }

    /// Gets the contract call's attached amount.
    pub fn amount(&self) -> (r: Option<Balance>)
        ensures
            r == self.amount,
    {
        self.amount
    }
}

} // verus!
