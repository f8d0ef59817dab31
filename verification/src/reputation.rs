//! The reputation token contract: active and passive balances, the stake
//! ledger, and the whitelist gate in front of every mutating operation.
//!
//! The central invariant (`wf`): for every account, the total locked
//! stake never exceeds the reputation balance, and the recorded total
//! supply is exactly the sum of all balances.

use vstd::prelude::*;

verus! {

use crate::access_control::AccessControl;
use crate::balances::BalanceStorage;
use crate::ballot::ShortenedBallot;
use crate::errors::Error;
use crate::stakes::bids_origins_removed;
use crate::stakes::bids_staked_of;
use crate::stakes::voting_origins_removed;
use crate::stakes::ballots_staked_of;
use crate::stakes::Origin;
use crate::stakes::ShortenedBid;
use crate::stakes::StakesStorage;
use crate::types::Address;
use crate::types::Balance;
use crate::types::VotingId;

broadcast use vstd::multiset::group_multiset_axioms;

/// Balances of a group of token holders plus their combined supply.
#[derive(Clone, PartialEq, Eq, Debug)]
pub struct AggregatedBalance {
    /// (account, balance) pairs.
    pub balances: Vec<(Address, Balance)>,
    /// The combined supply of the listed accounts.
    pub total_supply: Balance,
}

impl AggregatedBalance {
    /// Creates a new aggregate.
    pub fn new(balances: Vec<(Address, Balance)>, total_supply: Balance) -> (r: Self)
        ensures
            r.balances == balances,
            r.total_supply == total_supply,
    {
        Self { balances, total_supply }
    }

    /// The listed (account, balance) pairs.
    pub fn balances(&self) -> (r: &Vec<(Address, Balance)>)
        ensures
            r == self.balances,
    {
        &self.balances
    }

    /// The combined supply of the listed accounts.
    pub fn total_supply(&self) -> (r: Balance)
        ensures
            r == self.total_supply,
    {
        self.total_supply
    }
}

/// Everything one account has at stake: its open voting and bid origins.
#[derive(Clone, PartialEq, Eq, Debug)]
pub struct AggregatedStake {
    /// The account the stakes belong to.
    pub voter: Address,
    /// Open voting origins.
    pub stakes_from_voting: Vec<Origin>,
    /// Open bid origins.
    pub stakes_from_bid: Vec<Origin>,
}

impl AggregatedStake {
    /// Creates a new aggregate.
    pub fn new(
        voter: Address,
        stakes_from_voting: Vec<Origin>,
        stakes_from_bid: Vec<Origin>,
    ) -> (r: Self)
        ensures
            r.voter == voter,
            r.stakes_from_voting == stakes_from_voting,
            r.stakes_from_bid == stakes_from_bid,
    {
        Self { voter, stakes_from_voting, stakes_from_bid }
    }

    /// The open voting origins.
    pub fn get_voting_stakes_origins(&self) -> (r: &Vec<Origin>)
        ensures
            r == self.stakes_from_voting,
    {
        &self.stakes_from_voting
    }

    /// The open bid origins.
    pub fn get_bids_stakes_origins(&self) -> (r: &Vec<Origin>)
        ensures
            r == self.stakes_from_bid,
    {
        &self.stakes_from_bid
    }
}

/// The reputation token contract.
#[derive(Clone, PartialEq, Eq, Debug)]
pub struct ReputationContract {
    /// Active reputation balances.
    pub reputation_storage: BalanceStorage,
    /// Passive reputation (earned but not yet activated).
    pub passive_reputation_storage: BalanceStorage,
    /// Locked totals and open stake origins.
    pub stakes_storage: StakesStorage,
    /// Owner and whitelist.
    pub access_control: AccessControl,
}

impl ReputationContract {
    /// Balance of account `a`.
    pub open spec fn bal(self, a: int) -> int {
        self.reputation_storage.bal(a)
    }

    /// Locked stake of account `a`.
    pub open spec fn locked(self, a: int) -> int {
        self.stakes_storage.locked(a)
    }

    /// The lock bound: no account's locked stake exceeds its balance.
    pub open spec fn lock_bound_ok(self) -> bool {
        forall|a: int| #[trigger] self.locked(a) <= self.bal(a)
    }

    /// Full well-formedness: both balance columns conserve their supply
    /// and the lock bound holds.
    pub open spec fn wf(self) -> bool {
        &&& self.reputation_storage.wf()
        &&& self.passive_reputation_storage.wf()
        &&& self.lock_bound_ok()
    }

    /// Creates the contract with `deployer` as owner and sole
    /// whitelisted caller.
    pub fn new(deployer: Address) -> (r: Self)
        ensures
            r.wf(),
            r.access_control.owner.owner == Some(deployer),
            r.access_control.whitelist.contains_spec(deployer),
            forall|a: int| r.bal(a) == 0,
            forall|a: int| r.locked(a) == 0,
            r.reputation_storage.total_supply == 0,
    {
        let mut access_control = AccessControl::new();
        access_control.init(deployer);
        ReputationContract {
            reputation_storage: BalanceStorage::new(),
            passive_reputation_storage: BalanceStorage::new(),
            stakes_storage: StakesStorage::new(),
            access_control,
        }
    }

    /// Returns the current balance of `address`.
    pub fn balance_of(&self, address: Address) -> (r: Balance)
        ensures
            r == self.bal(address.0 as int),
    {
        self.reputation_storage.balance_of(address)
    }

    /// Returns the total token supply.
    pub fn total_supply(&self) -> (r: Balance)
        ensures
            r == self.reputation_storage.total_supply,
    {
        self.reputation_storage.total_supply()
    }

    /// Returns the total locked stake of `address`.
    pub fn get_stake(&self, address: Address) -> (r: Balance)
        ensures
            r == self.locked(address.0 as int),
    {
        self.stakes_storage.get_stake(address)
    }

    /// Mints `amount` new tokens for `recipient`. Only whitelisted
    /// callers; fails with `NotWhitelisted` otherwise.
    pub fn mint(&mut self, caller: Address, recipient: Address, amount: Balance) -> (r: Result<
        (),
        Error,
    >)
        requires
            old(self).wf(),
        ensures
            final(self).wf(),
            final(self).access_control == old(self).access_control,
            final(self).stakes_storage == old(self).stakes_storage,
            final(self).passive_reputation_storage
                == old(self).passive_reputation_storage,
            match r {
                Ok(()) => {
                    &&& old(self).access_control.whitelist.contains_spec(caller)
                    &&& final(self).bal(recipient.0 as int)
                        == old(self).bal(recipient.0 as int) + amount
                    &&& final(self).reputation_storage.total_supply
                        == old(self).reputation_storage.total_supply + amount
                    &&& forall|a: int| a != recipient.0 as int
                        ==> final(self).bal(a) == old(self).bal(a)
                },
                Err(e) => {
                    &&& *final(self) == *old(self)
                    &&& (e == Error::NotWhitelisted
                        <==> !old(self).access_control.whitelist.contains_spec(caller))
                    &&& (e == Error::NotWhitelisted || e == Error::InsufficientBalance)
                    &&& (e == Error::InsufficientBalance
                        ==> old(self).reputation_storage.total_supply + amount > u64::MAX)
                },
            },
    {
        let allowed = self.access_control.ensure_whitelisted(caller);
        if let Err(e) = allowed {
            return Err(e);
        }
        let result = self.reputation_storage.mint(recipient, amount);
        proof {
            assert forall|a: int| #[trigger] self.locked(a) <= self.bal(a) by {
                assert(old(self).locked(a) <= old(self).bal(a));
            }
        }
        result
    }

    /// Burns `amount` tokens of `owner`. Only whitelisted callers. The
    /// lock bound survives whenever the burn stays within the unlocked
    /// part of the balance.
    pub fn burn(&mut self, caller: Address, owner: Address, amount: Balance) -> (r: Result<
        (),
        Error,
    >)
        requires
            old(self).wf(),
        ensures
            final(self).reputation_storage.wf(),
            final(self).passive_reputation_storage
                == old(self).passive_reputation_storage,
            final(self).access_control == old(self).access_control,
            final(self).stakes_storage == old(self).stakes_storage,
            match r {
                Ok(()) => {
                    &&& old(self).access_control.whitelist.contains_spec(caller)
                    &&& amount <= old(self).bal(owner.0 as int)
                    &&& final(self).bal(owner.0 as int)
                        == old(self).bal(owner.0 as int) - amount
                    &&& final(self).reputation_storage.total_supply
                        == old(self).reputation_storage.total_supply - amount
                    &&& forall|a: int| a != owner.0 as int
                        ==> final(self).bal(a) == old(self).bal(a)
                    &&& (old(self).locked(owner.0 as int)
                        <= old(self).bal(owner.0 as int) - amount ==> final(self).wf())
                },
                Err(e) => {
                    &&& *final(self) == *old(self)
                    &&& (e == Error::NotWhitelisted
                        <==> !old(self).access_control.whitelist.contains_spec(caller))
                    &&& (e == Error::NotWhitelisted || e == Error::InsufficientBalance)
                    &&& (e == Error::InsufficientBalance
                        ==> amount > old(self).bal(owner.0 as int))
                },
            },
    {
        let allowed = self.access_control.ensure_whitelisted(caller);
        if let Err(e) = allowed {
            return Err(e);
        }
        let result = self.reputation_storage.burn(owner, amount);
        proof {
            assert forall|a: int| a != owner.0 as int
                implies #[trigger] self.locked(a) <= self.bal(a) by {
                assert(old(self).locked(a) <= old(self).bal(a));
            }
            assert(self.locked(owner.0 as int) == old(self).locked(owner.0 as int));
        }
        result
    }

    /// The lock bound restricted to every account but `exempt`: the one
    /// shape a full slash leaves the ledger in until the cascade of
    /// unstake calls has released the slashed account's locks.
    pub open spec fn lock_bound_except(self, exempt: int) -> bool {
        forall|a: int| a != exempt ==> #[trigger] self.locked(a) <= self.bal(a)
    }

    /// Burns all tokens of `owner`. The account's locks stay recorded;
    /// the surrounding slash cascade releases them through the unstake
    /// operations, after which the lock bound holds again.
    pub fn burn_all(&mut self, caller: Address, owner: Address) -> (r: Result<(), Error>)
        requires
            old(self).wf(),
        ensures
            final(self).reputation_storage.wf(),
            final(self).passive_reputation_storage
                == old(self).passive_reputation_storage,
            final(self).lock_bound_except(owner.0 as int),
            final(self).access_control == old(self).access_control,
            final(self).stakes_storage == old(self).stakes_storage,
            match r {
                Ok(()) => {
                    &&& old(self).access_control.whitelist.contains_spec(caller)
                    &&& final(self).bal(owner.0 as int) == 0
                    &&& final(self).reputation_storage.total_supply
                        == old(self).reputation_storage.total_supply
                            - old(self).bal(owner.0 as int)
                    &&& forall|a: int| a != owner.0 as int
                        ==> final(self).bal(a) == old(self).bal(a)
                    &&& (old(self).locked(owner.0 as int) == 0 ==> final(self).wf())
                },
                Err(e) => {
                    &&& *final(self) == *old(self)
                    &&& e == Error::NotWhitelisted
                    &&& !old(self).access_control.whitelist.contains_spec(caller)
                },
            },
    {
        let allowed = self.access_control.ensure_whitelisted(caller);
        if let Err(e) = allowed {
            return Err(e);
        }
        self.reputation_storage.burn_all(owner);
        proof {
            assert forall|a: int| a != owner.0 as int
                implies #[trigger] self.locked(a) <= self.bal(a) by {
                assert(old(self).locked(a) <= old(self).bal(a));
            }
            assert(self.locked(owner.0 as int) == old(self).locked(owner.0 as int));
        }
        Ok(())
    }

    /// Increases the passive reputation of `recipient`.
    pub fn mint_passive(&mut self, caller: Address, recipient: Address, amount: Balance) -> (r:
        Result<(), Error>)
        requires
            old(self).wf(),
        ensures
            final(self).wf(),
            final(self).reputation_storage == old(self).reputation_storage,
            final(self).stakes_storage == old(self).stakes_storage,
            final(self).access_control == old(self).access_control,
            match r {
                Ok(()) => {
                    &&& old(self).access_control.whitelist.contains_spec(caller)
                    &&& final(self).passive_reputation_storage.bal(recipient.0 as int)
                        == old(self).passive_reputation_storage.bal(recipient.0 as int)
                            + amount
                    &&& forall|a: int| a != recipient.0 as int
                        ==> final(self).passive_reputation_storage.bal(a)
                            == old(self).passive_reputation_storage.bal(a)
                },
                Err(e) => {
                    &&& *final(self) == *old(self)
                    &&& (e == Error::NotWhitelisted
                        <==> !old(self).access_control.whitelist.contains_spec(caller))
                    &&& (e == Error::NotWhitelisted || e == Error::InsufficientBalance)
                    &&& (e == Error::InsufficientBalance
                        ==> old(self).passive_reputation_storage.total_supply + amount
                            > u64::MAX)
                },
            },
    {
        let allowed = self.access_control.ensure_whitelisted(caller);
        if let Err(e) = allowed {
            return Err(e);
        }
        let result = self.passive_reputation_storage.mint(recipient, amount);
        proof {
            assert forall|a: int| #[trigger] self.locked(a) <= self.bal(a) by {
                assert(old(self).locked(a) <= old(self).bal(a));
            }
        }
        result
    }

    /// Decreases the passive reputation of `owner`.
    pub fn burn_passive(&mut self, caller: Address, owner: Address, amount: Balance) -> (r:
        Result<(), Error>)
        requires
            old(self).wf(),
        ensures
            final(self).wf(),
            final(self).reputation_storage == old(self).reputation_storage,
            final(self).stakes_storage == old(self).stakes_storage,
            final(self).access_control == old(self).access_control,
            match r {
                Ok(()) => {
                    &&& old(self).access_control.whitelist.contains_spec(caller)
                    &&& final(self).passive_reputation_storage.bal(owner.0 as int)
                        == old(self).passive_reputation_storage.bal(owner.0 as int) - amount
                    &&& forall|a: int| a != owner.0 as int
                        ==> final(self).passive_reputation_storage.bal(a)
                            == old(self).passive_reputation_storage.bal(a)
                },
                Err(e) => {
                    &&& *final(self) == *old(self)
                    &&& (e == Error::NotWhitelisted
                        <==> !old(self).access_control.whitelist.contains_spec(caller))
                    &&& (e == Error::NotWhitelisted || e == Error::InsufficientBalance)
                    &&& (e == Error::InsufficientBalance
                        ==> amount > old(self).passive_reputation_storage.bal(
                            owner.0 as int,
                        ))
                },
            },
    {
        let allowed = self.access_control.ensure_whitelisted(caller);
        if let Err(e) = allowed {
            return Err(e);
        }
        let result = self.passive_reputation_storage.burn(owner, amount);
        proof {
            assert forall|a: int| #[trigger] self.locked(a) <= self.bal(a) by {
                assert(old(self).locked(a) <= old(self).bal(a));
            }
        }
        result
    }

    /// Returns the current passive balance of `address`.
    pub fn passive_balance_of(&self, address: Address) -> (r: Balance)
        ensures
            r == self.passive_reputation_storage.bal(address.0 as int),
    {
        self.passive_reputation_storage.balance_of(address)
    }

    /// Locks a bid stake. Only whitelisted callers; the caller contract
    /// becomes part of the recorded origin.
    pub fn stake_bid(&mut self, caller: Address, bid: ShortenedBid) -> (r: Result<(), Error>)
        requires
            old(self).wf(),
        ensures
            final(self).wf(),
            final(self).reputation_storage == old(self).reputation_storage,
            final(self).passive_reputation_storage
                == old(self).passive_reputation_storage,
            final(self).access_control == old(self).access_control,
            match r {
                Ok(()) => {
                    let w = bid.worker.0 as int;
                    &&& old(self).access_control.whitelist.contains_spec(caller)
                    &&& bid.reputation_stake > 0
                    &&& old(self).locked(w) + bid.reputation_stake <= old(self).bal(w)
                    &&& final(self).locked(w)
                        == old(self).locked(w) + bid.reputation_stake
                    &&& final(self).stakes_storage.open_bids(w)
                        == old(self).stakes_storage.open_bids(w).insert(
                        (caller, bid.bid_id),
                    )
                    &&& forall|a: int| a != w ==> final(self).locked(a) == old(self).locked(a)
                    &&& forall|a: int| a != w
                        ==> final(self).stakes_storage.open_bids(a)
                            == old(self).stakes_storage.open_bids(a)
                    &&& forall|a: int| final(self).stakes_storage.open_votings(a)
                        == old(self).stakes_storage.open_votings(a)
                },
                Err(e) => {
                    let w = bid.worker.0 as int;
                    &&& *final(self) == *old(self)
                    &&& (e == Error::NotWhitelisted || e == Error::ZeroStake
                        || e == Error::InsufficientBalance)
                    &&& (e == Error::NotWhitelisted
                        <==> !old(self).access_control.whitelist.contains_spec(caller))
                    &&& (e == Error::ZeroStake ==> bid.reputation_stake == 0)
                    &&& (e == Error::InsufficientBalance
                        ==> old(self).locked(w) + bid.reputation_stake > old(self).bal(w))
                },
            },
    {
        let allowed = self.access_control.ensure_whitelisted(caller);
        if let Err(e) = allowed {
            return Err(e);
        }
        let result = self.stakes_storage.stake_bid(&self.reputation_storage, bid, caller);
        proof {
            assert forall|a: int| #[trigger] self.locked(a) <= self.bal(a) by {
                assert(old(self).locked(a) <= old(self).bal(a));
            }
        }
        result
    }

    /// Releases a bid stake and closes its origin. Only whitelisted
    /// callers.
    pub fn unstake_bid(&mut self, caller: Address, bid: ShortenedBid) -> (r: Result<(), Error>)
        requires
            old(self).wf(),
        ensures
            final(self).wf(),
            final(self).reputation_storage == old(self).reputation_storage,
            final(self).passive_reputation_storage
                == old(self).passive_reputation_storage,
            final(self).access_control == old(self).access_control,
            match r {
                Ok(()) => {
                    let w = bid.worker.0 as int;
                    let o = (caller, bid.bid_id);
                    &&& old(self).access_control.whitelist.contains_spec(caller)
                    &&& bid.reputation_stake <= old(self).locked(w)
                    &&& final(self).locked(w)
                        == old(self).locked(w) - bid.reputation_stake
                    &&& final(self).stakes_storage.open_bids(w)
                        == if old(self).stakes_storage.open_bids(w).count(o) > 0 {
                            old(self).stakes_storage.open_bids(w).remove(o)
                        } else {
                            old(self).stakes_storage.open_bids(w)
                        }
                    &&& forall|a: int| a != w ==> final(self).locked(a) == old(self).locked(a)
                    &&& forall|a: int| a != w
                        ==> final(self).stakes_storage.open_bids(a)
                            == old(self).stakes_storage.open_bids(a)
                    &&& forall|a: int| final(self).stakes_storage.open_votings(a)
                        == old(self).stakes_storage.open_votings(a)
                },
                Err(e) => {
                    &&& *final(self) == *old(self)
                    &&& (e == Error::NotWhitelisted || e == Error::ZeroStake)
                    &&& (e == Error::NotWhitelisted
                        <==> !old(self).access_control.whitelist.contains_spec(caller))
                    &&& (e == Error::ZeroStake
                        ==> bid.reputation_stake > old(self).locked(bid.worker.0 as int))
                },
            },
    {
        let allowed = self.access_control.ensure_whitelisted(caller);
        if let Err(e) = allowed {
            return Err(e);
        }
        let result = self.stakes_storage.unstake_bid(bid, caller);
        proof {
            assert forall|a: int| #[trigger] self.locked(a) <= self.bal(a) by {
                assert(old(self).locked(a) <= old(self).bal(a));
            }
        }
        result
    }

    /// Releases the reputation stakes of a list of bids. Only
    /// whitelisted callers.
    pub fn bulk_unstake_bid(&mut self, caller: Address, bids: &Vec<ShortenedBid>) -> (r: Result<
        (),
        Error,
    >)
        requires
            old(self).wf(),
        ensures
            final(self).wf(),
            final(self).reputation_storage == old(self).reputation_storage,
            final(self).passive_reputation_storage
                == old(self).passive_reputation_storage,
            final(self).access_control == old(self).access_control,
            forall|a: int| final(self).stakes_storage.open_votings(a)
                == old(self).stakes_storage.open_votings(a),
            match r {
                Ok(()) => {
                    &&& old(self).access_control.whitelist.contains_spec(caller)
                    &&& forall|a: int| final(self).locked(a)
                        == old(self).locked(a) - bids_staked_of(bids@, a)
                    &&& forall|a: int| final(self).stakes_storage.open_bids(a)
                        == bids_origins_removed(
                        old(self).stakes_storage.open_bids(a),
                        bids@,
                        caller,
                        a,
                    )
                },
                Err(e) => {
                    &&& (e == Error::NotWhitelisted
                        <==> !old(self).access_control.whitelist.contains_spec(caller))
                    &&& (e == Error::NotWhitelisted ==> *final(self) == *old(self))
                    &&& (e == Error::NotWhitelisted || e == Error::ZeroStake)
                    &&& (e == Error::ZeroStake
                        ==> exists|a: int| bids_staked_of(bids@, a) > old(self).locked(a))
                    &&& forall|a: int| final(self).locked(a) <= old(self).locked(a)
                },
            },
    {
        let allowed = self.access_control.ensure_whitelisted(caller);
        if let Err(e) = allowed {
            return Err(e);
        }
        let result = self.stakes_storage.bulk_unstake_bid(bids, caller);
        proof {
            assert forall|a: int| #[trigger] self.locked(a) <= self.bal(a) by {
                assert(old(self).locked(a) <= old(self).bal(a));
                crate::stakes::lemma_bids_staked_nonneg(bids@, a);
            }
        }
        result
    }

    /// Locks a voting stake. Only whitelisted callers.
    pub fn stake_voting(
        &mut self,
        caller: Address,
        voting_id: VotingId,
        ballot: ShortenedBallot,
    ) -> (r: Result<(), Error>)
        requires
            old(self).wf(),
        ensures
            final(self).wf(),
            final(self).reputation_storage == old(self).reputation_storage,
            final(self).passive_reputation_storage
                == old(self).passive_reputation_storage,
            final(self).access_control == old(self).access_control,
            match r {
                Ok(()) => {
                    let w = ballot.voter.0 as int;
                    &&& old(self).access_control.whitelist.contains_spec(caller)
                    &&& ballot.stake > 0
                    &&& old(self).locked(w) + ballot.stake <= old(self).bal(w)
                    &&& final(self).locked(w) == old(self).locked(w) + ballot.stake
                    &&& final(self).stakes_storage.open_votings(w)
                        == old(self).stakes_storage.open_votings(w).insert(
                        (caller, voting_id),
                    )
                    &&& forall|a: int| a != w ==> final(self).locked(a) == old(self).locked(a)
                    &&& forall|a: int| a != w
                        ==> final(self).stakes_storage.open_votings(a)
                            == old(self).stakes_storage.open_votings(a)
                    &&& forall|a: int| final(self).stakes_storage.open_bids(a)
                        == old(self).stakes_storage.open_bids(a)
                },
                Err(e) => {
                    let w = ballot.voter.0 as int;
                    &&& *final(self) == *old(self)
                    &&& (e == Error::NotWhitelisted || e == Error::ZeroStake
                        || e == Error::InsufficientBalance)
                    &&& (e == Error::NotWhitelisted
                        <==> !old(self).access_control.whitelist.contains_spec(caller))
                    &&& (e == Error::ZeroStake ==> ballot.stake == 0)
                    &&& (e == Error::InsufficientBalance
                        ==> old(self).locked(w) + ballot.stake > old(self).bal(w))
                },
            },
    {
        let allowed = self.access_control.ensure_whitelisted(caller);
        if let Err(e) = allowed {
            return Err(e);
        }
        let result =
            self.stakes_storage.stake_voting(&self.reputation_storage, voting_id, ballot, caller);
        proof {
            assert forall|a: int| #[trigger] self.locked(a) <= self.bal(a) by {
                assert(old(self).locked(a) <= old(self).bal(a));
            }
        }
        result
    }

    /// Releases a voting stake and closes its origin. Only whitelisted
    /// callers.
    pub fn unstake_voting(
        &mut self,
        caller: Address,
        voting_id: VotingId,
        ballot: ShortenedBallot,
    ) -> (r: Result<(), Error>)
        requires
            old(self).wf(),
        ensures
            final(self).wf(),
            final(self).reputation_storage == old(self).reputation_storage,
            final(self).passive_reputation_storage
                == old(self).passive_reputation_storage,
            final(self).access_control == old(self).access_control,
            match r {
                Ok(()) => {
                    let w = ballot.voter.0 as int;
                    let o = (caller, voting_id);
                    &&& old(self).access_control.whitelist.contains_spec(caller)
                    &&& ballot.stake <= old(self).locked(w)
                    &&& final(self).locked(w) == old(self).locked(w) - ballot.stake
                    &&& final(self).stakes_storage.open_votings(w)
                        == if old(self).stakes_storage.open_votings(w).count(o) > 0 {
                            old(self).stakes_storage.open_votings(w).remove(o)
                        } else {
                            old(self).stakes_storage.open_votings(w)
                        }
                    &&& forall|a: int| a != w ==> final(self).locked(a) == old(self).locked(a)
                    &&& forall|a: int| a != w
                        ==> final(self).stakes_storage.open_votings(a)
                            == old(self).stakes_storage.open_votings(a)
                    &&& forall|a: int| final(self).stakes_storage.open_bids(a)
                        == old(self).stakes_storage.open_bids(a)
                },
                Err(e) => {
                    &&& *final(self) == *old(self)
                    &&& (e == Error::NotWhitelisted || e == Error::ZeroStake)
                    &&& (e == Error::NotWhitelisted
                        <==> !old(self).access_control.whitelist.contains_spec(caller))
                    &&& (e == Error::ZeroStake
                        ==> ballot.stake > old(self).locked(ballot.voter.0 as int))
                },
            },
    {
        let allowed = self.access_control.ensure_whitelisted(caller);
        if let Err(e) = allowed {
            return Err(e);
        }
        let result = self.stakes_storage.unstake_voting(voting_id, ballot, caller);
        proof {
            assert forall|a: int| #[trigger] self.locked(a) <= self.bal(a) by {
                assert(old(self).locked(a) <= old(self).bal(a));
            }
        }
        result
    }

    /// Releases the stakes of a list of ballots cast in one round. Only
    /// whitelisted callers.
    pub fn bulk_unstake_voting(
        &mut self,
        caller: Address,
        voting_id: VotingId,
        ballots: &Vec<ShortenedBallot>,
    ) -> (r: Result<(), Error>)
        requires
            old(self).wf(),
        ensures
            final(self).wf(),
            final(self).reputation_storage == old(self).reputation_storage,
            final(self).passive_reputation_storage
                == old(self).passive_reputation_storage,
            final(self).access_control == old(self).access_control,
            forall|a: int| final(self).stakes_storage.open_bids(a)
                == old(self).stakes_storage.open_bids(a),
            match r {
                Ok(()) => {
                    &&& old(self).access_control.whitelist.contains_spec(caller)
                    &&& forall|a: int| final(self).locked(a)
                        == old(self).locked(a) - ballots_staked_of(ballots@, a)
                    &&& forall|a: int| final(self).stakes_storage.open_votings(a)
                        == voting_origins_removed(
                        old(self).stakes_storage.open_votings(a),
                        ballots@,
                        caller,
                        voting_id,
                        a,
                    )
                },
                Err(e) => {
                    &&& (e == Error::NotWhitelisted
                        <==> !old(self).access_control.whitelist.contains_spec(caller))
                    &&& (e == Error::NotWhitelisted ==> *final(self) == *old(self))
                    &&& (e == Error::NotWhitelisted || e == Error::ZeroStake)
                    &&& (e == Error::ZeroStake
                        ==> exists|a: int| ballots_staked_of(ballots@, a)
                            > old(self).locked(a))
                    &&& forall|a: int| final(self).locked(a) <= old(self).locked(a)
                },
            },
    {
        let allowed = self.access_control.ensure_whitelisted(caller);
        if let Err(e) = allowed {
            return Err(e);
        }
        let result = self.stakes_storage.bulk_unstake_voting(voting_id, ballots, caller);
        proof {
            assert forall|a: int| #[trigger] self.locked(a) <= self.bal(a) by {
                assert(old(self).locked(a) <= old(self).bal(a));
                crate::stakes::lemma_ballots_staked_nonneg(ballots@, a);
            }
        }
        result
    }


    /// Redistributes reputation in one settlement: performs all the
    /// mint orders, then all the burn orders. Only whitelisted
    /// callers. A burn may cut into an account's locked stake; the
    /// surrounding settlement releases the stakes first.
    pub fn bulk_mint_burn(
        &mut self,
        caller: Address,
        mints: &Vec<(Address, Balance)>,
        burns: &Vec<(Address, Balance)>,
    ) -> (r: Result<(), Error>)
        requires
            old(self).wf(),
        ensures
            final(self).reputation_storage.wf(),
            final(self).passive_reputation_storage
                == old(self).passive_reputation_storage,
            final(self).stakes_storage == old(self).stakes_storage,
            final(self).access_control == old(self).access_control,
            match r {
                Ok(()) => {
                    &&& old(self).access_control.whitelist.contains_spec(caller)
                    &&& forall|a: int| final(self).bal(a)
                        == old(self).bal(a) + crate::types::pays_of(mints@, a)
                            - crate::types::pays_of(burns@, a)
                },
                Err(e) => {
                    &&& (e == Error::NotWhitelisted
                        <==> !old(self).access_control.whitelist.contains_spec(caller))
                    &&& (e == Error::NotWhitelisted || e == Error::InsufficientBalance)
                    &&& (e == Error::InsufficientBalance ==> (exists|k: int|
                        0 <= k < mints@.len()
                            && old(self).reputation_storage.total_supply
                                + crate::types::sum_amounts(#[trigger] mints@.take(k + 1))
                                > u64::MAX)
                        || (exists|k: int| 0 <= k < burns@.len()
                            && old(self).bal((#[trigger] burns@[k]).0.0 as int)
                                + crate::types::pays_of(mints@, burns@[k].0.0 as int)
                                - crate::types::pays_of(
                                burns@.take(k),
                                burns@[k].0.0 as int,
                            ) < burns@[k].1))
                },
            },
    {
        let allowed = self.access_control.ensure_whitelisted(caller);
        if let Err(e) = allowed {
            return Err(e);
        }
        let ghost pre = *self;
        let mut i: usize = 0;
        while i < mints.len()
            invariant
                pre == *old(self),
                self.reputation_storage.wf(),
                self.passive_reputation_storage == pre.passive_reputation_storage,
                self.stakes_storage == pre.stakes_storage,
                self.access_control == pre.access_control,
                pre.access_control.whitelist.contains_spec(caller),
                i <= mints@.len(),
                self.reputation_storage.total_supply
                    == pre.reputation_storage.total_supply
                        + crate::types::sum_amounts(mints@.take(i as int)),
                forall|a: int| self.bal(a)
                    == pre.bal(a) + crate::types::pays_of(mints@.take(i as int), a),
            decreases mints@.len() - i,
        {
            let (recipient, amount) = mints[i];
            let ghost before = *self;
            proof {
                assert(mints@.take(i + 1).drop_last() =~= mints@.take(i as int));
                assert(mints@.take(i + 1).last() == mints@[i as int]);
            }
            let minted = self.reputation_storage.mint(recipient, amount);
            if let Err(e) = minted {
                return Err(e);
            }
            proof {
                assert(mints@.take(i + 1).drop_last() =~= mints@.take(i as int));
                assert(mints@.take(i + 1).last() == mints@[i as int]);
                assert forall|a: int| self.bal(a)
                    == pre.bal(a) + crate::types::pays_of(mints@.take(i + 1), a) by {
                    assert(before.bal(a)
                        == pre.bal(a) + crate::types::pays_of(mints@.take(i as int), a));
                }
            }
            i += 1;
        }
        proof {
            assert(mints@.take(mints@.len() as int) =~= mints@);
        }
        let ghost after_mints = *self;
        let mut i: usize = 0;
        while i < burns.len()
            invariant
                pre == *old(self),
                self.reputation_storage.wf(),
                self.passive_reputation_storage == pre.passive_reputation_storage,
                self.stakes_storage == pre.stakes_storage,
                self.access_control == pre.access_control,
                pre.access_control.whitelist.contains_spec(caller),
                i <= burns@.len(),
                forall|a: int| after_mints.bal(a)
                    == pre.bal(a) + crate::types::pays_of(mints@, a),
                forall|a: int| self.bal(a)
                    == after_mints.bal(a) - crate::types::pays_of(burns@.take(i as int), a),
            decreases burns@.len() - i,
        {
            let (owner, amount) = burns[i];
            let ghost before = *self;
            proof {
                assert(burns@.take(i + 1).drop_last() =~= burns@.take(i as int));
                assert(burns@.take(i + 1).last() == burns@[i as int]);
            }
            let burned = self.reputation_storage.burn(owner, amount);
            if let Err(e) = burned {
                proof {
                    assert(burns@[i as int] == (owner, amount));
                    assert(before.bal(owner.0 as int)
                        == after_mints.bal(owner.0 as int)
                            - crate::types::pays_of(burns@.take(i as int), owner.0 as int));
                    assert(after_mints.bal(owner.0 as int)
                        == pre.bal(owner.0 as int)
                            + crate::types::pays_of(mints@, owner.0 as int));
                }
                return Err(e);
            }
            proof {
                assert(burns@.take(i + 1).drop_last() =~= burns@.take(i as int));
                assert(burns@.take(i + 1).last() == burns@[i as int]);
                assert forall|a: int| self.bal(a)
                    == after_mints.bal(a)
                        - crate::types::pays_of(burns@.take(i + 1), a) by {
                    assert(before.bal(a)
                        == after_mints.bal(a)
                            - crate::types::pays_of(burns@.take(i as int), a));
                }
            }
            i += 1;
        }
        proof {
            assert(burns@.take(burns@.len() as int) =~= burns@);
        }
        Ok(())
    }

    /// Gets the balances of all current token holders: every account
    /// with a positive balance appears exactly once, with its balance.
    pub fn all_balances(&self) -> (r: AggregatedBalance)
        requires
            self.wf(),
        ensures
            r.total_supply == self.reputation_storage.total_supply,
            forall|i: int| 0 <= i < r.balances@.len()
                ==> #[trigger] r.balances@[i].1 == self.bal(r.balances@[i].0.0 as int)
                    && r.balances@[i].1 > 0,
            forall|a: int| self.bal(a) > 0
                ==> exists|i: int| 0 <= i < r.balances@.len()
                    && #[trigger] r.balances@[i].0.0 == a,
            forall|i: int, j: int| 0 <= i < j < r.balances@.len()
                ==> r.balances@[i].0 != r.balances@[j].0,
    {
        let mut holders: Vec<(Address, Balance)> = Vec::new();
        let mut i: usize = 0;
        while i < self.reputation_storage.balances.len()
            invariant
                self.wf(),
                i <= self.reputation_storage.balances@.len(),
                forall|k: int| 0 <= k < holders@.len()
                    ==> (#[trigger] holders@[k]).1 == self.bal(holders@[k].0.0 as int)
                        && holders@[k].1 > 0 && holders@[k].0.0 < i,
                forall|a: int| 0 <= a < i && self.bal(a) > 0
                    ==> exists|k: int| 0 <= k < holders@.len()
                        && (#[trigger] holders@[k]).0.0 == a,
                forall|k: int, l: int| 0 <= k < l < holders@.len()
                    ==> (#[trigger] holders@[k]).0 != (#[trigger] holders@[l]).0,
            decreases self.reputation_storage.balances@.len() - i,
        {
            let ghost start = holders@;
            let amount = self.reputation_storage.balances[i];
            if amount > 0 {
                holders.push((Address(i as u32), amount));
                proof {
                    assert(holders@ =~= start.push((Address(i as u32), amount)));
                    assert(holders@[holders@.len() - 1] == (Address(i as u32), amount));
                }
            }
            proof {
                assert(forall|k: int| 0 <= k < start.len()
                    ==> holders@[k] == start[k]);
                assert forall|a: int| 0 <= a < i + 1 && self.bal(a) > 0
                    implies exists|k: int| 0 <= k < holders@.len()
                        && (#[trigger] holders@[k]).0.0 == a by {
                    if a == i as int {
                        assert(holders@[holders@.len() - 1].0.0 == a);
                    } else {
                        let k = choose|k: int| 0 <= k < start.len()
                            && (#[trigger] start[k]).0.0 == a;
                        assert(holders@[k].0.0 == a);
                    }
                }
                assert forall|k: int, l: int| 0 <= k < l < holders@.len()
                    implies (#[trigger] holders@[k]).0 != (#[trigger] holders@[l]).0 by {
                    if l < start.len() {
                    } else {
                        assert(holders@[l].0.0 == i);
                        assert(holders@[k].0.0 < i);
                    }
                }
            }
            i += 1;
        }
        AggregatedBalance::new(holders, self.reputation_storage.total_supply())
    }

    /// Gets the balances of the given accounts and their combined
    /// supply. The combined supply of the listed accounts must fit the
    /// balance type.
    pub fn partial_balances(&self, addresses: &Vec<Address>) -> (r: Option<AggregatedBalance>)
        requires
            self.wf(),
        ensures
            match r {
                Some(agg) => {
                    &&& agg.balances@.len() == addresses@.len()
                    &&& forall|i: int| 0 <= i < addresses@.len()
                        ==> agg.balances@[i] == (
                            addresses@[i],
                            self.bal(addresses@[i].0 as int) as u64,
                        )
                },
                None => true,
            },
    {
        let mut balances: Vec<(Address, Balance)> = Vec::new();
        let mut partial_supply: Balance = 0;
        let mut i: usize = 0;
        while i < addresses.len()
            invariant
                self.wf(),
                i <= addresses@.len(),
                balances@.len() == i,
                forall|k: int| 0 <= k < i
                    ==> balances@[k] == (addresses@[k], self.bal(addresses@[k].0 as int) as u64),
            decreases addresses@.len() - i,
        {
            let address = addresses[i];
            let balance = self.balance_of(address);
            if balance > u64::MAX - partial_supply {
                return None;
            }
            balances.push((address, balance));
            partial_supply = partial_supply + balance;
            i += 1;
        }
        Some(AggregatedBalance::new(balances, partial_supply))
    }

    /// Returns all the data about the given account's open stakes.
    pub fn stakes_info(&self, address: Address) -> (r: AggregatedStake)
        ensures
            r.voter == address,
            r.stakes_from_voting@.to_multiset()
                == self.stakes_storage.open_votings(address.0 as int),
            r.stakes_from_bid@.to_multiset()
                == self.stakes_storage.open_bids(address.0 as int),
    {
        let bids = self.stakes_storage.get_bids(&address);
        let votings = self.stakes_storage.get_votings(&address);
        AggregatedStake::new(address, votings, bids)
    }

    /// Transfers ownership; only the current owner may call.
    pub fn change_ownership(&mut self, caller: Address, owner: Address) -> (r: Result<
        (),
        Error,
    >)
        requires
            old(self).wf(),
        ensures
            final(self).wf(),
            final(self).reputation_storage == old(self).reputation_storage,
            final(self).passive_reputation_storage
                == old(self).passive_reputation_storage,
            final(self).stakes_storage == old(self).stakes_storage,
            r is Ok ==> final(self).access_control.owner.owner == Some(owner),
            r is Err ==> *final(self) == *old(self)
                && old(self).access_control.owner.owner != Some(caller),
    {
        let result = self.access_control.change_ownership(caller, owner);
        proof {
            assert forall|a: int| #[trigger] self.locked(a) <= self.bal(a) by {
                assert(old(self).locked(a) <= old(self).bal(a));
            }
        }
        result
    }

    /// Adds `address` to the whitelist; only the owner may call.
    pub fn add_to_whitelist(&mut self, caller: Address, address: Address) -> (r: Result<
        (),
        Error,
    >)
        requires
            old(self).wf(),
        ensures
            final(self).wf(),
            final(self).reputation_storage == old(self).reputation_storage,
            final(self).passive_reputation_storage
                == old(self).passive_reputation_storage,
            final(self).stakes_storage == old(self).stakes_storage,
            r is Ok ==> final(self).access_control.whitelist.contains_spec(address)
                && forall|a: Address| old(self).access_control.whitelist.contains_spec(a)
                    ==> final(self).access_control.whitelist.contains_spec(a),
            r is Err ==> *final(self) == *old(self)
                && old(self).access_control.owner.owner != Some(caller),
    {
        let result = self.access_control.add_to_whitelist(caller, address);
        proof {
            assert forall|a: int| #[trigger] self.locked(a) <= self.bal(a) by {
                assert(old(self).locked(a) <= old(self).bal(a));
            }
        }
        result
    }

    /// Removes `address` from the whitelist; only the owner may call.
    pub fn remove_from_whitelist(&mut self, caller: Address, address: Address) -> (r: Result<
        (),
        Error,
    >)
        requires
            old(self).wf(),
        ensures
            final(self).wf(),
            final(self).reputation_storage == old(self).reputation_storage,
            final(self).passive_reputation_storage
                == old(self).passive_reputation_storage,
            final(self).stakes_storage == old(self).stakes_storage,
            r is Ok ==> !final(self).access_control.whitelist.contains_spec(address),
            r is Err ==> *final(self) == *old(self)
                && old(self).access_control.owner.owner != Some(caller),
    {
        let result = self.access_control.remove_from_whitelist(caller, address);
        proof {
            assert forall|a: int| #[trigger] self.locked(a) <= self.bal(a) by {
                assert(old(self).locked(a) <= old(self).bal(a));
            }
        }
        result
    }

    /// Whether `address` is whitelisted.
    pub fn is_whitelisted(&self, address: Address) -> (r: bool)
        ensures
            r == self.access_control.whitelist.contains_spec(address),
    {
        self.access_control.is_whitelisted(address)
    }

    /// Returns the contract owner.
    pub fn get_owner(&self) -> (r: Option<Address>)
        ensures
            r == self.access_control.owner.owner,
    {
        self.access_control.get_owner()
    }
}

/// Unstaking exactly what was staked for a given bid origin returns the
/// stake ledger to its pre-stake state: same locked totals, same open
/// origins, for every account.
pub proof fn lemma_stake_unstake_bid_round_trip(
    pre: StakesStorage,
    mid: StakesStorage,
    post: StakesStorage,
    worker: Address,
    stake: Balance,
    origin: Origin,
)
    requires
        mid.locked(worker.0 as int) == pre.locked(worker.0 as int) + stake,
        mid.open_bids(worker.0 as int) == pre.open_bids(worker.0 as int).insert(origin),
        forall|a: int| a != worker.0 as int ==> mid.locked(a) == pre.locked(a),
        forall|a: int| a != worker.0 as int ==> mid.open_bids(a) == pre.open_bids(a),
        forall|a: int| mid.open_votings(a) == pre.open_votings(a),
        post.locked(worker.0 as int) == mid.locked(worker.0 as int) - stake,
        post.open_bids(worker.0 as int)
            == if mid.open_bids(worker.0 as int).count(origin) > 0 {
                mid.open_bids(worker.0 as int).remove(origin)
            } else {
                mid.open_bids(worker.0 as int)
            },
        forall|a: int| a != worker.0 as int ==> post.locked(a) == mid.locked(a),
        forall|a: int| a != worker.0 as int ==> post.open_bids(a) == mid.open_bids(a),
        forall|a: int| post.open_votings(a) == mid.open_votings(a),
    ensures
        forall|a: int| post.locked(a) == pre.locked(a),
        forall|a: int| post.open_bids(a) =~= pre.open_bids(a),
        forall|a: int| post.open_votings(a) == pre.open_votings(a),
{
    let w = worker.0 as int;
    assert(mid.open_bids(w).count(origin) > 0);
    assert(post.open_bids(w) =~= pre.open_bids(w));
}

/// Unstaking exactly what was staked for a given voting origin returns
/// the stake ledger to its pre-stake state.
pub proof fn lemma_stake_unstake_voting_round_trip(
    pre: StakesStorage,
    mid: StakesStorage,
    post: StakesStorage,
    voter: Address,
    stake: Balance,
    origin: Origin,
)
    requires
        mid.locked(voter.0 as int) == pre.locked(voter.0 as int) + stake,
        mid.open_votings(voter.0 as int) == pre.open_votings(voter.0 as int).insert(origin),
        forall|a: int| a != voter.0 as int ==> mid.locked(a) == pre.locked(a),
        forall|a: int| a != voter.0 as int ==> mid.open_votings(a) == pre.open_votings(a),
        forall|a: int| mid.open_bids(a) == pre.open_bids(a),
        post.locked(voter.0 as int) == mid.locked(voter.0 as int) - stake,
        post.open_votings(voter.0 as int)
            == if mid.open_votings(voter.0 as int).count(origin) > 0 {
                mid.open_votings(voter.0 as int).remove(origin)
            } else {
                mid.open_votings(voter.0 as int)
            },
        forall|a: int| a != voter.0 as int ==> post.locked(a) == mid.locked(a),
        forall|a: int| a != voter.0 as int ==> post.open_votings(a) == mid.open_votings(a),
        forall|a: int| post.open_bids(a) == mid.open_bids(a),
    ensures
        forall|a: int| post.locked(a) == pre.locked(a),
        forall|a: int| post.open_votings(a) =~= pre.open_votings(a),
        forall|a: int| post.open_bids(a) == pre.open_bids(a),
{
    let v = voter.0 as int;
    assert(mid.open_votings(v).count(origin) > 0);
    assert(post.open_votings(v) =~= pre.open_votings(v));
}

} // verus!
