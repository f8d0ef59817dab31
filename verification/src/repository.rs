//! The governance variable repository: a key-value store where every
//! update may carry an activation time, so a new value can be staged
//! ahead and becomes current only once its time has passed.

use vstd::prelude::*;

verus! {

use crate::errors::Error;
use crate::types::Address;
use crate::types::Balance;
use crate::types::BlockTime;

/// The governance variables the repository keeps.
#[derive(Clone, Copy, PartialEq, Eq, Structural, Debug)]
pub enum RepositoryKey {
    PostJobDosFee,
    InternalAuctionTime,
    PublicAuctionTime,
    DefaultPolicingRate,
    ReputationConversionRate,
    ForumKycRequired,
    BidEscrowInformalQuorumRatio,
    BidEscrowFormalQuorumRatio,
    InformalQuorumRatio,
    FormalQuorumRatio,
    BidEscrowInformalVotingTime,
    BidEscrowFormalVotingTime,
    InformalVotingTime,
    FormalVotingTime,
    InformalStakeReputation,
    TimeBetweenInformalAndFormalVoting,
    VaBidAcceptanceTimeout,
    VaCanBidOnPublicAuction,
    DistributePaymentToNonVoters,
    DefaultReputationSlash,
    VotingClearnessDelta,
    VotingStartAfterJobWorkerSubmission,
    BidEscrowPaymentRatio,
    FiatConversionRateAddress,
    BidEscrowWalletAddress,
    VotingIdsAddress,
}

/// A governance variable's value. The host serializes values for its
/// storage; the core works on the plain forms.
#[derive(Clone, Copy, PartialEq, Eq, Structural, Debug)]
pub enum RepositoryValue {
    /// An amount or ratio.
    Amount(Balance),
    /// A duration or timestamp.
    Time(BlockTime),
    /// A feature switch.
    Flag(bool),
    /// An account or contract.
    Account(Address),
}

/// A stored record: the current value, and optionally a staged future
/// value with its activation time.
pub type Record = (RepositoryValue, Option<(RepositoryValue, u64)>);

/// The repository value has been changed.
#[derive(Clone, Copy, PartialEq, Eq, Structural, Debug)]
pub struct ValueUpdated {
    /// The updated key.
    pub key: RepositoryKey,
    /// The new (possibly staged) value.
    pub value: RepositoryValue,
    /// When the value activates, if staged.
    pub activation_time: Option<u64>,
}

/// Whether `s` holds a record for `key`.
pub open spec fn has_key(s: Seq<(RepositoryKey, Record)>, key: RepositoryKey) -> bool {
    exists|i: int| 0 <= i < s.len() && (#[trigger] s[i]).0 == key
}

/// The index of `key`'s record in `s`.
pub open spec fn key_index(s: Seq<(RepositoryKey, Record)>, key: RepositoryKey) -> int {
    choose|i: int| 0 <= i < s.len() && (#[trigger] s[i]).0 == key
}

/// A module that stores the governance configuration.
#[derive(Clone, PartialEq, Eq, Debug)]
pub struct Repository {
    /// (key, record) pairs, one per key ever written.
    pub storage: Vec<(RepositoryKey, Record)>,
}

impl Repository {
    /// Keys are unique.
    pub open spec fn wf(self) -> bool {
        forall|i: int, j: int| 0 <= i < j < self.storage@.len()
            ==> (#[trigger] self.storage@[i]).0 != (#[trigger] self.storage@[j]).0
    }

    /// The record stored for `key`, if any.
    pub open spec fn record_of(self, key: RepositoryKey) -> Option<Record> {
        if has_key(self.storage@, key) {
            Some(self.storage@[key_index(self.storage@, key)].1)
        } else {
            None
        }
    }

    /// The record `update_at` produces from the stored one.
    pub open spec fn updated_record(
        stored: Record,
        value: RepositoryValue,
        activation_time: u64,
        now: BlockTime,
    ) -> Record {
        match stored.1 {
            None => (stored.0, Some((value, activation_time))),
            Some((next_value, next_time)) => if next_time < now {
                (next_value, Some((value, activation_time)))
            } else {
                (stored.0, Some((value, activation_time)))
            },
        }
    }

    /// Creates an empty repository.
    pub fn new() -> (r: Self)
        ensures
            r.wf(),
            r.storage@.len() == 0,
    {
        Repository { storage: Vec::new() }
    }

    /// Finds the position of `key`'s record.
    fn find(&self, key: RepositoryKey) -> (r: Option<usize>)
        requires
            self.wf(),
        ensures
            match r {
                Some(i) => i < self.storage@.len() && self.storage@[i as int].0 == key
                    && i == key_index(self.storage@, key),
                None => !has_key(self.storage@, key),
            },
    {
        let mut i: usize = 0;
        while i < self.storage.len()
            invariant
                self.wf(),
                i <= self.storage@.len(),
                forall|j: int| 0 <= j < i ==> (#[trigger] self.storage@[j]).0 != key,
            decreases self.storage@.len() - i,
        {
            if self.storage[i].0 == key {
                proof {
                    assert(self.storage@[i as int].0 == key);
                    let w = key_index(self.storage@, key);
                    assert(self.storage@[w].0 == key);
                }
                return Some(i);
            }
            i += 1;
        }
        None
    }

    /// Updates a key: without an activation time the value replaces
    /// the current one at once; with one, the value is staged for the
    /// future, promoting an already-expired staged value first. A
    /// staged update needs an existing record and an activation time
    /// not in the past.
    pub fn update_at(
        &mut self,
        key: RepositoryKey,
        value: RepositoryValue,
        activation_time: Option<u64>,
        now: BlockTime,
    ) -> (r: Result<ValueUpdated, Error>)
        requires
            old(self).wf(),
        ensures
            final(self).wf(),
            match r {
                Ok(event) => {
                    &&& event == (ValueUpdated { key, value, activation_time })
                    &&& match activation_time {
                        None => final(self).record_of(key)
                            == Some(((value, Option::<(RepositoryValue, u64)>::None))),
                        Some(t) => {
                            &&& t >= now
                            &&& old(self).record_of(key) is Some
                            &&& final(self).record_of(key) == Some(
                                Self::updated_record(
                                    old(self).record_of(key)->0,
                                    value,
                                    t,
                                    now,
                                ),
                            )
                        },
                    }
                    &&& forall|k: RepositoryKey| k != key
                        ==> final(self).record_of(k) == old(self).record_of(k)
                },
                Err(e) => {
                    &&& *final(self) == *old(self)
                    &&& (e == Error::ActivationTimeInPast || e == Error::KeyValueStorageError)
                    &&& (e == Error::ActivationTimeInPast
                        <==> activation_time is Some && activation_time->0 < now)
                    &&& (e == Error::KeyValueStorageError
                        ==> activation_time is Some && old(self).record_of(key) is None)
                },
            },
    {
        let position = self.find(key);
        let new_record: Record = match activation_time {
            None => (value, None),
            Some(t) => {
                if t < now {
                    return Err(Error::ActivationTimeInPast);
                }
                match position {
                    None => {
                        return Err(Error::KeyValueStorageError);
                    }
                    Some(i) => {
                        let (current_value, current_next) = self.storage[i].1;
                        match current_next {
                            None => (current_value, Some((value, t))),
                            Some((next_value, next_time)) => {
                                if next_time < now {
                                    (next_value, Some((value, t)))
                                } else {
                                    (current_value, Some((value, t)))
                                }
                            }
                        }
                    }
                }
            }
        };
        match position {
            Some(i) => {
                self.storage.set(i, (key, new_record));
                proof {
                    lemma_unique_key_lookup(self.storage@, i as int);
                    assert forall|k: RepositoryKey| k != key
                        implies final(self).record_of(k) == old(self).record_of(k) by {
                        lemma_same_keys_same_lookup(
                            old(self).storage@,
                            self.storage@,
                            k,
                        );
                    }
                }
            }
            None => {
                self.storage.push((key, new_record));
                proof {
                    assert(self.storage@.last() == (key, new_record));
                    lemma_unique_key_lookup(self.storage@, self.storage@.len() - 1);
                    assert forall|k: RepositoryKey| k != key
                        implies final(self).record_of(k) == old(self).record_of(k) by {
                        lemma_push_other_lookup(old(self).storage@, (key, new_record), k);
                    }
                }
            }
        }
        Ok(ValueUpdated { key, value, activation_time })
    }

    /// Writes a value that takes effect at once.
    pub fn set(&mut self, key: RepositoryKey, value: RepositoryValue) -> (r: Result<
        ValueUpdated,
        Error,
    >)
        requires
            old(self).wf(),
        ensures
            final(self).wf(),
            r is Ok,
            match r {
                Ok(event) => {
                    &&& event == (ValueUpdated {
                        key,
                        value,
                        activation_time: Option::<u64>::None,
                    })
                    &&& final(self).record_of(key)
                        == Some(((value, Option::<(RepositoryValue, u64)>::None)))
                    &&& forall|k: RepositoryKey| k != key
                        ==> final(self).record_of(k) == old(self).record_of(k)
                },
                Err(e) => false,
            },
    {
        self.update_at(key, value, None, 0)
    }

    /// Reads the key's effective value at `now`: the staged value once
    /// its activation time has passed, the current value otherwise.
    pub fn get(&self, key: RepositoryKey, now: BlockTime) -> (r: Option<RepositoryValue>)
        requires
            self.wf(),
        ensures
            r == match self.record_of(key) {
                Some((current, staged)) => match staged {
                    Some((next_value, next_time)) => if now > next_time {
                        Some(next_value)
                    } else {
                        Some(current)
                    },
                    None => Some(current),
                },
                None => Option::<RepositoryValue>::None,
            },
    {
        let position = self.find(key);
        let i = match position {
            Some(i) => i,
            None => {
                return None;
            }
        };
        let (current, staged) = self.storage[i].1;
        match staged {
            Some((next_value, next_time)) => {
                if now > next_time {
                    Some(next_value)
                } else {
                    Some(current)
                }
            }
            None => Some(current),
        }
    }

    /// Reads the key's whole record.
    pub fn get_full_value(&self, key: RepositoryKey) -> (r: Option<Record>)
        requires
            self.wf(),
        ensures
            r == self.record_of(key),
    {
        let position = self.find(key);
        match position {
            Some(i) => Some(self.storage[i].1),
            None => None,
        }
    }
}

/// After updating position `i`, the lookup of that key lands on `i`.
proof fn lemma_unique_key_lookup(s: Seq<(RepositoryKey, Record)>, i: int)
    requires
        0 <= i < s.len(),
        forall|a: int, b: int| 0 <= a < b < s.len()
            ==> (#[trigger] s[a]).0 != (#[trigger] s[b]).0,
    ensures
        has_key(s, s[i].0),
        key_index(s, s[i].0) == i,
{
    assert(s[i].0 == s[i].0);
    let w = key_index(s, s[i].0);
    assert(s[w].0 == s[i].0);
    if w != i {
        if w < i {
            assert(s[w].0 != s[i].0);
        } else {
            assert(s[i].0 != s[w].0);
        }
    }
}

/// Two stores that agree everywhere but at one key agree on the
/// lookup of every other key.
proof fn lemma_same_keys_same_lookup(
    pre: Seq<(RepositoryKey, Record)>,
    post: Seq<(RepositoryKey, Record)>,
    k: RepositoryKey,
)
    requires
        pre.len() == post.len(),
        forall|a: int, b: int| 0 <= a < b < pre.len()
            ==> (#[trigger] pre[a]).0 != (#[trigger] pre[b]).0,
        forall|i: int| 0 <= i < pre.len() ==> (#[trigger] pre[i]).0 == (#[trigger] post[i]).0,
        forall|i: int| 0 <= i < pre.len() && (#[trigger] pre[i]).0 == k ==> post[i] == pre[i],
    ensures
        has_key(post, k) == has_key(pre, k),
        has_key(pre, k) ==> post[key_index(post, k)].1 == pre[key_index(pre, k)].1,
{
    if has_key(pre, k) {
        let i = key_index(pre, k);
        assert(pre[i].0 == k);
        assert(post[i].0 == k);
        let j = key_index(post, k);
        assert(post[j].0 == k);
        assert(pre[j].0 == k);
        if i != j {
            if i < j {
                assert(pre[i].0 != pre[j].0);
            } else {
                assert(pre[j].0 != pre[i].0);
            }
        }
    } else {
        if has_key(post, k) {
            let j = key_index(post, k);
            assert(pre[j].0 == k);
        }
    }
}

/// Appending a record for another key does not change a key's lookup.
proof fn lemma_push_other_lookup(
    pre: Seq<(RepositoryKey, Record)>,
    entry: (RepositoryKey, Record),
    k: RepositoryKey,
)
    requires
        entry.0 != k,
        forall|a: int, b: int| 0 <= a < b < pre.len()
            ==> (#[trigger] pre[a]).0 != (#[trigger] pre[b]).0,
    ensures
        has_key(pre.push(entry), k) == has_key(pre, k),
        has_key(pre, k)
            ==> pre.push(entry)[key_index(pre.push(entry), k)].1
                == pre[key_index(pre, k)].1,
{
    let post = pre.push(entry);
    if has_key(pre, k) {
        let i = key_index(pre, k);
        assert(post[i].0 == k);
        let j = key_index(post, k);
        assert(post[j].0 == k);
        assert(j < pre.len());
        assert(pre[j].0 == k);
        if i != j {
            if i < j {
                assert(pre[i].0 != pre[j].0);
            } else {
                assert(pre[j].0 != pre[i].0);
            }
        }
    } else {
        if has_key(post, k) {
            let j = key_index(post, k);
            assert(post[j].0 == k);
            if j < pre.len() {
                assert(pre[j].0 == k);
            }
        }
    }
}

/// The default values of every governance variable.
pub struct RepositoryDefaults {
    /// (key, value) pairs, in declaration order.
    pub items: Vec<(RepositoryKey, RepositoryValue)>,
}

impl RepositoryDefaults {
    /// Appends one default.
    pub fn push(&mut self, key: RepositoryKey, value: RepositoryValue)
        ensures
            final(self).items@ == old(self).items@.push((key, value)),
    {
        self.items.push((key, value));
    }

    /// Hands the defaults out.
    pub fn items(self) -> (r: Vec<(RepositoryKey, RepositoryValue)>)
        ensures
            r == self.items,
    {
        self.items
    }

}

impl Default for RepositoryDefaults {
    /// The standard default values of every governance variable.
    fn default() -> (r: RepositoryDefaults)
        ensures
            r.items@.len() == 23,
    {
        let mut items = RepositoryDefaults { items: Vec::new() };
        items.push(RepositoryKey::PostJobDosFee, RepositoryValue::Amount(10000));
        items.push(RepositoryKey::InternalAuctionTime, RepositoryValue::Time(604800000));
        items.push(RepositoryKey::PublicAuctionTime, RepositoryValue::Time(864000000));
        items.push(RepositoryKey::DefaultPolicingRate, RepositoryValue::Amount(300));
        items.push(RepositoryKey::ReputationConversionRate, RepositoryValue::Amount(100));
        items.push(RepositoryKey::ForumKycRequired, RepositoryValue::Flag(true));
        items.push(
            RepositoryKey::BidEscrowInformalQuorumRatio,
            RepositoryValue::Amount(500),
        );
        items.push(RepositoryKey::BidEscrowFormalQuorumRatio, RepositoryValue::Amount(500));
        items.push(RepositoryKey::InformalQuorumRatio, RepositoryValue::Amount(500));
        items.push(RepositoryKey::FormalQuorumRatio, RepositoryValue::Amount(500));
        items.push(
            RepositoryKey::BidEscrowInformalVotingTime,
            RepositoryValue::Time(432000000),
        );
        items.push(
            RepositoryKey::BidEscrowFormalVotingTime,
            RepositoryValue::Time(432000000),
        );
        items.push(RepositoryKey::InformalVotingTime, RepositoryValue::Time(432000000));
        items.push(RepositoryKey::FormalVotingTime, RepositoryValue::Time(432000000));
        items.push(RepositoryKey::InformalStakeReputation, RepositoryValue::Flag(true));
        items.push(
            RepositoryKey::TimeBetweenInformalAndFormalVoting,
            RepositoryValue::Time(86400000),
        );
        items.push(RepositoryKey::VaBidAcceptanceTimeout, RepositoryValue::Time(172800000));
        items.push(RepositoryKey::VaCanBidOnPublicAuction, RepositoryValue::Flag(false));
        items.push(
            RepositoryKey::DistributePaymentToNonVoters,
            RepositoryValue::Flag(true),
        );
        items.push(RepositoryKey::DefaultReputationSlash, RepositoryValue::Amount(100));
        items.push(RepositoryKey::VotingClearnessDelta, RepositoryValue::Amount(8));
        items.push(
            RepositoryKey::VotingStartAfterJobWorkerSubmission,
            RepositoryValue::Time(259200000),
        );
        items.push(RepositoryKey::BidEscrowPaymentRatio, RepositoryValue::Amount(100));
        items
    }
}

impl Repository {
    /// Initializes the repository with the standard defaults plus the
    /// three collaborating contract addresses.
    pub fn init(
        &mut self,
        fiat_conversion: Address,
        bid_escrow_wallet: Address,
        voting_ids: Address,
    )
        requires
            old(self).wf(),
        ensures
            final(self).wf(),
            final(self).record_of(RepositoryKey::FiatConversionRateAddress)
                == Some((
                    (
                        RepositoryValue::Account(fiat_conversion),
                        Option::<(RepositoryValue, u64)>::None,
                    )
                )),
            final(self).record_of(RepositoryKey::BidEscrowWalletAddress)
                == Some((
                    (
                        RepositoryValue::Account(bid_escrow_wallet),
                        Option::<(RepositoryValue, u64)>::None,
                    )
                )),
            final(self).record_of(RepositoryKey::VotingIdsAddress)
                == Some((
                    (
                        RepositoryValue::Account(voting_ids),
                        Option::<(RepositoryValue, u64)>::None,
                    )
                )),
    {
        let defaults = RepositoryDefaults::default();
        let items = defaults.items();
        let mut i: usize = 0;
        while i < items.len()
            invariant
                self.wf(),
                i <= items@.len(),
            decreases items@.len() - i,
        {
            let (key, value) = items[i];
            let _ = self.set(key, value);
            i += 1;
        }
        let _ = self.set(
            RepositoryKey::FiatConversionRateAddress,
            RepositoryValue::Account(fiat_conversion),
        );
        let _ = self.set(
            RepositoryKey::BidEscrowWalletAddress,
            RepositoryValue::Account(bid_escrow_wallet),
        );
        let _ = self.set(
            RepositoryKey::VotingIdsAddress,
            RepositoryValue::Account(voting_ids),
        );
    }
}

} // verus!
