//! Reputation balances: a total mapping from accounts to amounts,
//! with the invariant that the recorded total supply is exactly the sum
//! of all balances. Accounts are dense indices; an account beyond the
//! stored range simply holds zero.

use vstd::prelude::*;

verus! {

use crate::errors::Error;
use crate::types::Address;
use crate::types::Balance;

/// Sum of a sequence of balances, as an unbounded integer.
pub open spec fn sum_balances(s: Seq<Balance>) -> int
    decreases s.len(),
{
    if s.len() == 0 {
        0
    } else {
        sum_balances(s.drop_last()) + s.last()
    }
}

/// Appending a balance adds it to the sum.
pub proof fn lemma_sum_push(s: Seq<Balance>, v: Balance)
    ensures
        sum_balances(s.push(v)) == sum_balances(s) + v,
{
    assert(s.push(v).drop_last() =~= s);
}

/// Replacing one balance changes the sum by the difference.
pub proof fn lemma_sum_update(s: Seq<Balance>, i: int, v: Balance)
    requires
        0 <= i < s.len(),
    ensures
        sum_balances(s.update(i, v)) == sum_balances(s) - s[i] + v,
    decreases s.len(),
{
    if i == s.len() - 1 {
        assert(s.update(i, v).drop_last() =~= s.drop_last());
    } else {
        assert(s.update(i, v).drop_last() =~= s.drop_last().update(i, v));
        lemma_sum_update(s.drop_last(), i, v);
    }
}

/// Every balance is at most the sum of all balances.
pub proof fn lemma_sum_bounds(s: Seq<Balance>, i: int)
    requires
        0 <= i < s.len(),
    ensures
        0 <= s[i] <= sum_balances(s),
    decreases s.len(),
{
    lemma_sum_nonneg(s.drop_last());
    if i == s.len() - 1 {
    } else {
        lemma_sum_update(s, s.len() - 1, 0);
        lemma_sum_bounds(s.drop_last(), i);
    }
}

/// A sum of balances is never negative.
pub proof fn lemma_sum_nonneg(s: Seq<Balance>)
    ensures
        sum_balances(s) >= 0,
    decreases s.len(),
{
    if s.len() > 0 {
        lemma_sum_nonneg(s.drop_last());
    }
}

/// Balance bookkeeping for one reputation class (active or passive).
#[derive(Clone, PartialEq, Eq, Debug)]
pub struct BalanceStorage {
    /// Balance of each account, indexed by account identifier.
    pub balances: Vec<Balance>,
    /// Cached sum of all balances.
    pub total_supply: Balance,
}

impl BalanceStorage {
    /// The recorded total supply is exactly the sum of all balances;
    /// this is the conservation law of mint and burn.
    pub open spec fn wf(self) -> bool {
        &&& self.total_supply == sum_balances(self.balances@)
        &&& self.balances@.len() <= 0x1_0000_0000
    }

    /// The balance of account `a`, as a total function.
    pub open spec fn bal(self, a: int) -> int {
        if 0 <= a < self.balances@.len() {
            self.balances@[a] as int
        } else {
            0
        }
    }

    /// Creates an empty storage: every balance zero, supply zero.
    pub fn new() -> (r: Self)
        ensures
            r.wf(),
            r.total_supply == 0,
            forall|a: int| r.bal(a) == 0,
    {
        BalanceStorage { balances: Vec::new(), total_supply: 0 }
    }

    /// Returns the current balance of `address`.
    pub fn balance_of(&self, address: Address) -> (r: Balance)
        ensures
            r == self.bal(address.0 as int),
    {
        if (address.0 as usize) < self.balances.len() {
            self.balances[address.0 as usize]
        } else {
            0
        }
    }

    /// Returns the total token supply.
    pub fn total_supply(&self) -> (r: Balance)
        ensures
            r == self.total_supply,
    {
        self.total_supply
    }

    /// Every balance is covered by the total supply.
    pub proof fn lemma_balance_le_supply(self, a: int)
        requires
            self.wf(),
        ensures
            0 <= self.bal(a) <= self.total_supply,
    {
        if 0 <= a < self.balances@.len() {
            lemma_sum_bounds(self.balances@, a);
        } else {
            lemma_sum_nonneg(self.balances@);
        }
    }

    /// Grows the dense index range so that `address` has a slot.
    fn ensure_slot(&mut self, address: Address)
        requires
            old(self).wf(),
        ensures
            final(self).wf(),
            final(self).total_supply == old(self).total_supply,
            (address.0 as int) < final(self).balances@.len(),
            forall|a: int| final(self).bal(a) == old(self).bal(a),
    {
        while self.balances.len() <= address.0 as usize
            invariant
                self.total_supply == sum_balances(self.balances@),
                self.balances@.len() <= 0x1_0000_0000,
                self.balances@.len() <= old(self).balances@.len()
                    || self.balances@.len() <= address.0 + 1,
                self.total_supply == old(self).total_supply,
                forall|a: int| self.bal(a) == old(self).bal(a),
            decreases address.0 as usize + 1 - self.balances.len(),
        {
            proof {
                lemma_sum_push(self.balances@, 0);
            }
            self.balances.push(0);
        }
    }

    /// Mints `amount` new tokens for `recipient`: their balance and the
    /// total supply both grow by `amount`; nobody else's balance changes.
    pub fn mint(&mut self, recipient: Address, amount: Balance) -> (r: Result<(), Error>)
        requires
            old(self).wf(),
        ensures
            final(self).wf(),
            match r {
                Ok(()) => {
                    &&& old(self).total_supply + amount <= u64::MAX
                    &&& final(self).bal(recipient.0 as int)
                        == old(self).bal(recipient.0 as int) + amount
                    &&& final(self).total_supply == old(self).total_supply + amount
                    &&& forall|a: int| a != recipient.0 as int
                        ==> final(self).bal(a) == old(self).bal(a)
                },
                Err(e) => {
                    &&& e == Error::InsufficientBalance
                    &&& old(self).total_supply + amount > u64::MAX
                    &&& *final(self) == *old(self)
                },
            },
    {
        if amount > u64::MAX - self.total_supply {
            return Err(Error::InsufficientBalance);
        }
        self.ensure_slot(recipient);
        let idx = recipient.0 as usize;
        proof {
            lemma_sum_bounds(self.balances@, idx as int);
            lemma_sum_update(self.balances@, idx as int, (self.balances@[idx as int] + amount) as u64);
        }
        let updated = self.balances[idx] + amount;
        self.balances.set(idx, updated);
        self.total_supply = self.total_supply + amount;
        Ok(())
    }

    /// Burns `amount` tokens of `owner`: their balance and the total
    /// supply both shrink by `amount`; fails with `InsufficientBalance`
    /// when the balance does not cover the amount.
    pub fn burn(&mut self, owner: Address, amount: Balance) -> (r: Result<(), Error>)
        requires
            old(self).wf(),
        ensures
            final(self).wf(),
            match r {
                Ok(()) => {
                    &&& amount <= old(self).bal(owner.0 as int)
                    &&& final(self).bal(owner.0 as int)
                        == old(self).bal(owner.0 as int) - amount
                    &&& final(self).total_supply == old(self).total_supply - amount
                    &&& forall|a: int| a != owner.0 as int
                        ==> final(self).bal(a) == old(self).bal(a)
                },
                Err(e) => {
                    &&& e == Error::InsufficientBalance
                    &&& amount > old(self).bal(owner.0 as int)
                    &&& *final(self) == *old(self)
                },
            },
    {
        let current = self.balance_of(owner);
        if amount > current {
            return Err(Error::InsufficientBalance);
        }
        if amount == 0 {
            return Ok(());
        }
        let idx = owner.0 as usize;
        proof {
            lemma_sum_bounds(self.balances@, idx as int);
            lemma_sum_update(self.balances@, idx as int, (self.balances@[idx as int] - amount) as u64);
        }
        let updated = self.balances[idx] - amount;
        self.balances.set(idx, updated);
        self.total_supply = self.total_supply - amount;
        Ok(())
    }

    /// Burns all tokens of `owner`.
    pub fn burn_all(&mut self, owner: Address)
        requires
            old(self).wf(),
        ensures
            final(self).wf(),
            final(self).bal(owner.0 as int) == 0,
            final(self).total_supply
                == old(self).total_supply - old(self).bal(owner.0 as int),
            forall|a: int| a != owner.0 as int ==> final(self).bal(a) == old(self).bal(a),
    {
        let current = self.balance_of(owner);
        let _ = self.burn(owner, current);
        proof {
            self.lemma_balance_le_supply(owner.0 as int);
        }
    }
}

} // verus!
