//! The stake ledger: per-account locked totals and the open stake
//! origins (which bid or voting round each lock belongs to).
//!
//! A removed origin entry is replaced by a hole rather than shifted out,
//! so positions stay stable; the observable content of an origin list is
//! the multiset of its non-hole entries.

use vstd::multiset::Multiset;
use vstd::prelude::*;

verus! {

use crate::balances::BalanceStorage;
use crate::ballot::ShortenedBallot;
use crate::errors::Error;
use crate::types::Address;
use crate::types::Balance;
use crate::types::VotingId;

broadcast use {vstd::multiset::group_multiset_axioms, vstd::seq_lib::group_to_multiset_ensures};

/// A stake origin: the subsystem contract that locked the stake and the
/// bid or voting identifier the lock belongs to.
pub type Origin = (Address, u32);

/// The multiset of open (non-hole) origin entries of one list.
pub open spec fn open_records(s: Seq<Option<Origin>>) -> Multiset<Origin>
    decreases s.len(),
{
    if s.len() == 0 {
        Multiset::empty()
    } else {
        match s.last() {
            Some(o) => open_records(s.drop_last()).insert(o),
            None => open_records(s.drop_last()),
        }
    }
}

/// Appending an open entry inserts its origin.
pub proof fn lemma_open_records_push_some(s: Seq<Option<Origin>>, o: Origin)
    ensures
        open_records(s.push(Some(o))) == open_records(s).insert(o),
{
    assert(s.push(Some(o)).drop_last() =~= s);
}

/// Appending a hole changes nothing.
pub proof fn lemma_open_records_push_none(s: Seq<Option<Origin>>)
    ensures
        open_records(s.push(None)) == open_records(s),
{
    assert(s.push(None).drop_last() =~= s);
}

/// Punching a hole over an open entry removes one occurrence of its
/// origin.
pub proof fn lemma_open_records_update_none(s: Seq<Option<Origin>>, i: int, o: Origin)
    requires
        0 <= i < s.len(),
        s[i] == Some(o),
    ensures
        open_records(s.update(i, None)) == open_records(s).remove(o),
    decreases s.len(),
{
    let upd = s.update(i, None);
    if i == s.len() - 1 {
        assert(upd.drop_last() =~= s.drop_last());
        assert(open_records(s) == open_records(s.drop_last()).insert(o));
        assert(open_records(upd) =~= open_records(s).remove(o));
    } else {
        assert(upd.drop_last() =~= s.drop_last().update(i, None));
        assert(s.drop_last()[i] == s[i]);
        lemma_open_records_update_none(s.drop_last(), i, o);
        lemma_open_records_count_at(s.drop_last(), i);
        assert(upd.last() == s.last());
        match s.last() {
            Some(last_o) => {
                assert(open_records(upd)
                    == open_records(s.drop_last()).remove(o).insert(last_o));
                assert(open_records(s.drop_last()).remove(o).insert(last_o)
                    =~= open_records(s.drop_last()).insert(last_o).remove(o));
            }
            None => {}
        }
    }
}

/// Sum of the stakes a list of ballots attributes to account `a`.
pub open spec fn ballots_staked_of(ballots: Seq<ShortenedBallot>, a: int) -> int
    decreases ballots.len(),
{
    if ballots.len() == 0 {
        0
    } else {
        ballots_staked_of(ballots.drop_last(), a)
            + if ballots.last().voter.0 == a {
                ballots.last().stake as int
            } else {
                0
            }
    }
}

/// Sum of the reputation stakes a list of shortened bids attributes to
/// account `a`.
pub open spec fn bids_staked_of(bids: Seq<ShortenedBid>, a: int) -> int
    decreases bids.len(),
{
    if bids.len() == 0 {
        0
    } else {
        bids_staked_of(bids.drop_last(), a)
            + if bids.last().worker.0 == a {
                bids.last().reputation_stake as int
            } else {
                0
            }
    }
}

/// A list of ballots never attributes a negative stake sum to an
/// account.
pub proof fn lemma_ballots_staked_nonneg(ballots: Seq<ShortenedBallot>, a: int)
    ensures
        ballots_staked_of(ballots, a) >= 0,
    decreases ballots.len(),
{
    if ballots.len() > 0 {
        lemma_ballots_staked_nonneg(ballots.drop_last(), a);
    }
}

/// A list of bids never attributes a negative stake sum to an account.
pub proof fn lemma_bids_staked_nonneg(bids: Seq<ShortenedBid>, a: int)
    ensures
        bids_staked_of(bids, a) >= 0,
    decreases bids.len(),
{
    if bids.len() > 0 {
        lemma_bids_staked_nonneg(bids.drop_last(), a);
    }
}

/// A prefix of a list never attributes more stake to an account than
/// the whole list.
pub proof fn lemma_ballots_staked_prefix(ballots: Seq<ShortenedBallot>, k: int, a: int)
    requires
        0 <= k <= ballots.len(),
    ensures
        ballots_staked_of(ballots.take(k), a) <= ballots_staked_of(ballots, a),
    decreases ballots.len(),
{
    if k == ballots.len() {
        assert(ballots.take(k) =~= ballots);
    } else {
        assert(ballots.take(k) =~= ballots.drop_last().take(k));
        lemma_ballots_staked_prefix(ballots.drop_last(), k, a);
    }
}

/// A prefix of a list never attributes more stake to an account than
/// the whole list.
pub proof fn lemma_bids_staked_prefix(bids: Seq<ShortenedBid>, k: int, a: int)
    requires
        0 <= k <= bids.len(),
    ensures
        bids_staked_of(bids.take(k), a) <= bids_staked_of(bids, a),
    decreases bids.len(),
{
    if k == bids.len() {
        assert(bids.take(k) =~= bids);
    } else {
        assert(bids.take(k) =~= bids.drop_last().take(k));
        lemma_bids_staked_prefix(bids.drop_last(), k, a);
    }
}

/// Account `a`'s open bid origins after releasing the listed bids in
/// order: each listed entry of `a` closes one matching origin, if one
/// is open.
pub open spec fn bids_origins_removed(
    m: Multiset<Origin>,
    items: Seq<ShortenedBid>,
    caller: Address,
    a: int,
) -> Multiset<Origin>
    decreases items.len(),
{
    if items.len() == 0 {
        m
    } else {
        let prev = bids_origins_removed(m, items.drop_last(), caller, a);
        if items.last().worker.0 == a {
            let origin = (caller, items.last().bid_id);
            if prev.count(origin) > 0 {
                prev.remove(origin)
            } else {
                prev
            }
        } else {
            prev
        }
    }
}

/// Account `a`'s open voting origins after releasing the listed
/// ballots of one round in order.
pub open spec fn voting_origins_removed(
    m: Multiset<Origin>,
    items: Seq<ShortenedBallot>,
    caller: Address,
    voting_id: VotingId,
    a: int,
) -> Multiset<Origin>
    decreases items.len(),
{
    if items.len() == 0 {
        m
    } else {
        let prev = voting_origins_removed(m, items.drop_last(), caller, voting_id, a);
        if items.last().voter.0 == a {
            let origin = (caller, voting_id);
            if prev.count(origin) > 0 {
                prev.remove(origin)
            } else {
                prev
            }
        } else {
            prev
        }
    }
}

/// The part of a bid the stake ledger needs: who staked how much on
/// which bid.
#[derive(Clone, Copy, PartialEq, Eq, Structural, Debug)]
pub struct ShortenedBid {
    /// The bid the stake belongs to.
    pub bid_id: u32,
    /// The staked reputation.
    pub reputation_stake: Balance,
    /// The staking worker.
    pub worker: Address,
}

impl ShortenedBid {
    /// Creates a new shortened bid.
    pub fn new(bid_id: u32, reputation_stake: Balance, worker: Address) -> (r: Self)
        ensures
            r == (ShortenedBid { bid_id, reputation_stake, worker }),
    {
        Self { bid_id, reputation_stake, worker }
    }
}

/// Per-account locked totals and open origin lists.
#[derive(Clone, PartialEq, Eq, Debug)]
pub struct StakesStorage {
    /// Total locked reputation of each account, indexed by account.
    pub total_stake: Vec<Balance>,
    /// Open bid origins of each account.
    pub bids: Vec<Vec<Option<Origin>>>,
    /// Open voting origins of each account.
    pub votings: Vec<Vec<Option<Origin>>>,
}

impl StakesStorage {
    /// Total locked reputation of account `a`, as a total function.
    pub open spec fn locked(self, a: int) -> int {
        if 0 <= a < self.total_stake@.len() {
            self.total_stake@[a] as int
        } else {
            0
        }
    }

    /// The raw bid origin list of account `a`.
    pub open spec fn bid_records(self, a: int) -> Seq<Option<Origin>> {
        if 0 <= a < self.bids@.len() {
            self.bids@[a]@
        } else {
            Seq::empty()
        }
    }

    /// The raw voting origin list of account `a`.
    pub open spec fn voting_records(self, a: int) -> Seq<Option<Origin>> {
        if 0 <= a < self.votings@.len() {
            self.votings@[a]@
        } else {
            Seq::empty()
        }
    }

    /// The open bid origins of account `a`.
    pub open spec fn open_bids(self, a: int) -> Multiset<Origin> {
        open_records(self.bid_records(a))
    }

    /// The open voting origins of account `a`.
    pub open spec fn open_votings(self, a: int) -> Multiset<Origin> {
        open_records(self.voting_records(a))
    }

    /// Creates an empty stake ledger.
    pub fn new() -> (r: Self)
        ensures
            forall|a: int| r.locked(a) == 0,
            forall|a: int| r.open_bids(a) =~= Multiset::<Origin>::empty(),
            forall|a: int| r.open_votings(a) =~= Multiset::<Origin>::empty(),
    {
        StakesStorage { total_stake: Vec::new(), bids: Vec::new(), votings: Vec::new() }
    }

    /// Returns the total locked reputation of `address`.
    pub fn get_stake(&self, address: Address) -> (r: Balance)
        ensures
            r == self.locked(address.0 as int),
    {
        if (address.0 as usize) < self.total_stake.len() {
            self.total_stake[address.0 as usize]
        } else {
            0
        }
    }

    /// Grows the dense ranges so `address` has slots in all three
    /// columns.
    fn ensure_slot(&mut self, address: Address)
        ensures
            (address.0 as int) < final(self).total_stake@.len(),
            (address.0 as int) < final(self).bids@.len(),
            (address.0 as int) < final(self).votings@.len(),
            forall|a: int| final(self).locked(a) == old(self).locked(a),
            forall|a: int| final(self).bid_records(a) =~= old(self).bid_records(a),
            forall|a: int| final(self).voting_records(a) =~= old(self).voting_records(a),
    {
        let idx = address.0 as usize;
        while self.total_stake.len() <= idx
            invariant
                forall|a: int| self.locked(a) == old(self).locked(a),
                self.bids@ == old(self).bids@,
                self.votings@ == old(self).votings@,
            decreases idx + 1 - self.total_stake.len(),
        {
            self.total_stake.push(0);
        }
        while self.bids.len() <= idx
            invariant
                forall|a: int| self.locked(a) == old(self).locked(a),
                idx < self.total_stake@.len(),
                forall|a: int| self.bid_records(a) =~= old(self).bid_records(a),
                self.votings@ == old(self).votings@,
            decreases idx + 1 - self.bids.len(),
        {
            let fresh: Vec<Option<Origin>> = Vec::new();
            self.bids.push(fresh);
        }
        while self.votings.len() <= idx
            invariant
                forall|a: int| self.locked(a) == old(self).locked(a),
                idx < self.total_stake@.len(),
                idx < self.bids@.len(),
                forall|a: int| self.bid_records(a) =~= old(self).bid_records(a),
                forall|a: int| self.voting_records(a) =~= old(self).voting_records(a),
            decreases idx + 1 - self.votings.len(),
        {
            let fresh: Vec<Option<Origin>> = Vec::new();
            self.votings.push(fresh);
        }
    }

    /// Locks `stake` of `worker`'s reputation for a bid, recording the
    /// origin. Fails with `InsufficientBalance` when the unlocked part
    /// of the balance does not cover the stake, with `ZeroStake` when
    /// the stake is zero.
    pub fn stake_bid(
        &mut self,
        balances: &BalanceStorage,
        bid: ShortenedBid,
        voter_contract: Address,
    ) -> (r: Result<(), Error>)
        ensures
            match r {
                Ok(()) => {
                    let w = bid.worker.0 as int;
                    &&& bid.reputation_stake > 0
                    &&& old(self).locked(w) + bid.reputation_stake <= balances.bal(w)
                    &&& final(self).locked(w)
                        == old(self).locked(w) + bid.reputation_stake
                    &&& final(self).open_bids(w) == old(self).open_bids(w).insert(
                        (voter_contract, bid.bid_id),
                    )
                    &&& forall|a: int| a != w ==> final(self).locked(a) == old(self).locked(a)
                    &&& forall|a: int| a != w
                        ==> final(self).open_bids(a) == old(self).open_bids(a)
                    &&& forall|a: int|
                        final(self).open_votings(a) == old(self).open_votings(a)
                },
                Err(e) => {
                    let w = bid.worker.0 as int;
                    &&& *final(self) == *old(self)
                    &&& (e == Error::ZeroStake || e == Error::InsufficientBalance)
                    &&& (e == Error::ZeroStake ==> bid.reputation_stake == 0)
                    &&& (e == Error::InsufficientBalance
                        ==> old(self).locked(w) + bid.reputation_stake > balances.bal(w)
                            || old(self).locked(w) > balances.bal(w))
                },
            },
    {
        let available = self.available_balance(balances, bid.worker);
        if available < bid.reputation_stake {
            return Err(Error::InsufficientBalance);
        }
        if bid.reputation_stake == 0 {
            return Err(Error::ZeroStake);
        }
        self.inc_total_stake(bid.worker, bid.reputation_stake);
        self.push_bid_record(bid.worker, (voter_contract, bid.bid_id));
        Ok(())
    }

    /// Releases a bid stake: the locked total shrinks by the stake and
    /// one matching open origin (if any) is closed. Fails with
    /// `ZeroStake` when the stake exceeds the locked total, which
    /// signals a caller bookkeeping fault, not a user error.
    pub fn unstake_bid(&mut self, bid: ShortenedBid, voter_contract: Address) -> (r: Result<
        (),
        Error,
    >)
        ensures
            match r {
                Ok(()) => {
                    let w = bid.worker.0 as int;
                    let o = (voter_contract, bid.bid_id);
                    &&& bid.reputation_stake <= old(self).locked(w)
                    &&& final(self).locked(w)
                        == old(self).locked(w) - bid.reputation_stake
                    &&& final(self).open_bids(w) == if old(self).open_bids(w).count(o) > 0 {
                        old(self).open_bids(w).remove(o)
                    } else {
                        old(self).open_bids(w)
                    }
                    &&& forall|a: int| a != w ==> final(self).locked(a) == old(self).locked(a)
                    &&& forall|a: int| a != w
                        ==> final(self).open_bids(a) == old(self).open_bids(a)
                    &&& forall|a: int|
                        final(self).open_votings(a) == old(self).open_votings(a)
                },
                Err(e) => {
                    &&& e == Error::ZeroStake
                    &&& bid.reputation_stake > old(self).locked(bid.worker.0 as int)
                    &&& *final(self) == *old(self)
                },
            },
    {
        let done = self.dec_total_stake(bid.worker, bid.reputation_stake);
        match done {
            Ok(()) => {
                self.remove_bid_record(bid.worker, (voter_contract, bid.bid_id));
                Ok(())
            }
            Err(e) => Err(e),
        }
    }

    /// Releases the reputation stakes of a whole list of bids, one by
    /// one. The call succeeds exactly when every account's listed
    /// total is covered by its locked stake; on failure the call
    /// aborts mid-list and the host discards the whole call's state
    /// changes.
    pub fn bulk_unstake_bid(&mut self, bids: &Vec<ShortenedBid>, voter_contract: Address) -> (r:
        Result<(), Error>)
        ensures
            forall|a: int| final(self).open_votings(a) == old(self).open_votings(a),
            match r {
                Ok(()) => {
                    &&& forall|a: int| final(self).locked(a)
                        == old(self).locked(a) - bids_staked_of(bids@, a)
                    &&& forall|a: int| final(self).open_bids(a) == bids_origins_removed(
                        old(self).open_bids(a),
                        bids@,
                        voter_contract,
                        a,
                    )
                },
                Err(e) => {
                    &&& e == Error::ZeroStake
                    &&& exists|a: int| bids_staked_of(bids@, a) > old(self).locked(a)
                    &&& forall|a: int| final(self).locked(a) <= old(self).locked(a)
                },
            },
    {
        let mut i: usize = 0;
        while i < bids.len()
            invariant
                i <= bids.len(),
                forall|a: int| self.locked(a) <= old(self).locked(a),
                forall|a: int| self.locked(a)
                    == old(self).locked(a) - bids_staked_of(bids@.take(i as int), a),
                forall|a: int| self.open_bids(a) == bids_origins_removed(
                    old(self).open_bids(a),
                    bids@.take(i as int),
                    voter_contract,
                    a,
                ),
                forall|a: int| self.open_votings(a) == old(self).open_votings(a),
            decreases bids.len() - i,
        {
            let bid = bids[i];
            let ghost before = *self;
            proof {
                assert(bids@.take(i + 1).drop_last() =~= bids@.take(i as int));
                assert(bids@.take(i + 1).last() == bids@[i as int]);
            }
            let done = self.unstake_bid(bid, voter_contract);
            if let Err(e) = done {
                proof {
                    let w = bid.worker.0 as int;
                    lemma_bids_staked_prefix(bids@, i + 1, w);
                }
                return Err(e);
            }
            proof {
                assert forall|a: int| self.open_bids(a) == bids_origins_removed(
                    old(self).open_bids(a),
                    bids@.take(i + 1),
                    voter_contract,
                    a,
                ) by {
                    assert(before.open_bids(a) == bids_origins_removed(
                        old(self).open_bids(a),
                        bids@.take(i as int),
                        voter_contract,
                        a,
                    ));
                }
            }
            i += 1;
        }
        proof {
            assert(bids@.take(bids@.len() as int) =~= bids@);
        }
        Ok(())
    }

    /// Locks `ballot.stake` of the voter's reputation for a voting
    /// round. Fails with `ZeroStake` on a zero stake, with
    /// `InsufficientBalance` when the unlocked balance does not cover it.
    pub fn stake_voting(
        &mut self,
        balances: &BalanceStorage,
        voting_id: VotingId,
        ballot: ShortenedBallot,
        voter_contract: Address,
    ) -> (r: Result<(), Error>)
        ensures
            match r {
                Ok(()) => {
                    let w = ballot.voter.0 as int;
                    &&& ballot.stake > 0
                    &&& old(self).locked(w) + ballot.stake <= balances.bal(w)
                    &&& final(self).locked(w) == old(self).locked(w) + ballot.stake
                    &&& final(self).open_votings(w) == old(self).open_votings(w).insert(
                        (voter_contract, voting_id),
                    )
                    &&& forall|a: int| a != w ==> final(self).locked(a) == old(self).locked(a)
                    &&& forall|a: int| a != w
                        ==> final(self).open_votings(a) == old(self).open_votings(a)
                    &&& forall|a: int| final(self).open_bids(a) == old(self).open_bids(a)
                },
                Err(e) => {
                    let w = ballot.voter.0 as int;
                    &&& *final(self) == *old(self)
                    &&& (e == Error::ZeroStake || e == Error::InsufficientBalance)
                    &&& (e == Error::ZeroStake <==> ballot.stake == 0)
                    &&& (e == Error::InsufficientBalance
                        ==> old(self).locked(w) + ballot.stake > balances.bal(w)
                            || old(self).locked(w) > balances.bal(w))
                },
            },
    {
        if ballot.stake == 0 {
            return Err(Error::ZeroStake);
        }
        let available = self.available_balance(balances, ballot.voter);
        if available < ballot.stake {
            return Err(Error::InsufficientBalance);
        }
        self.inc_total_stake(ballot.voter, ballot.stake);
        self.push_voting_record(ballot.voter, (voter_contract, voting_id));
        Ok(())
    }

    /// Releases a voting stake, closing one matching open origin.
    /// Fails with `ZeroStake` when the stake exceeds the locked total.
    pub fn unstake_voting(
        &mut self,
        voting_id: VotingId,
        ballot: ShortenedBallot,
        voter_contract: Address,
    ) -> (r: Result<(), Error>)
        ensures
            match r {
                Ok(()) => {
                    let w = ballot.voter.0 as int;
                    let o = (voter_contract, voting_id);
                    &&& ballot.stake <= old(self).locked(w)
                    &&& final(self).locked(w) == old(self).locked(w) - ballot.stake
                    &&& final(self).open_votings(w) == if old(self).open_votings(w).count(o)
                        > 0 {
                        old(self).open_votings(w).remove(o)
                    } else {
                        old(self).open_votings(w)
                    }
                    &&& forall|a: int| a != w ==> final(self).locked(a) == old(self).locked(a)
                    &&& forall|a: int| a != w
                        ==> final(self).open_votings(a) == old(self).open_votings(a)
                    &&& forall|a: int| final(self).open_bids(a) == old(self).open_bids(a)
                },
                Err(e) => {
                    &&& e == Error::ZeroStake
                    &&& ballot.stake > old(self).locked(ballot.voter.0 as int)
                    &&& *final(self) == *old(self)
                },
            },
    {
        let done = self.dec_total_stake(ballot.voter, ballot.stake);
        match done {
            Ok(()) => {
                self.remove_voting_record(ballot.voter, (voter_contract, voting_id));
                Ok(())
            }
            Err(e) => Err(e),
        }
    }

    /// Releases the stakes of a whole list of ballots cast in one
    /// voting round, one by one. The call succeeds exactly when every
    /// account's listed total is covered by its locked stake.
    pub fn bulk_unstake_voting(
        &mut self,
        voting_id: VotingId,
        ballots: &Vec<ShortenedBallot>,
        voter_contract: Address,
    ) -> (r: Result<(), Error>)
        ensures
            forall|a: int| final(self).open_bids(a) == old(self).open_bids(a),
            match r {
                Ok(()) => {
                    &&& forall|a: int| final(self).locked(a)
                        == old(self).locked(a) - ballots_staked_of(ballots@, a)
                    &&& forall|a: int| final(self).open_votings(a) == voting_origins_removed(
                        old(self).open_votings(a),
                        ballots@,
                        voter_contract,
                        voting_id,
                        a,
                    )
                },
                Err(e) => {
                    &&& e == Error::ZeroStake
                    &&& exists|a: int| ballots_staked_of(ballots@, a) > old(self).locked(a)
                    &&& forall|a: int| final(self).locked(a) <= old(self).locked(a)
                },
            },
    {
        let mut i: usize = 0;
        while i < ballots.len()
            invariant
                i <= ballots.len(),
                forall|a: int| self.locked(a) <= old(self).locked(a),
                forall|a: int| self.locked(a)
                    == old(self).locked(a) - ballots_staked_of(ballots@.take(i as int), a),
                forall|a: int| self.open_votings(a) == voting_origins_removed(
                    old(self).open_votings(a),
                    ballots@.take(i as int),
                    voter_contract,
                    voting_id,
                    a,
                ),
                forall|a: int| self.open_bids(a) == old(self).open_bids(a),
            decreases ballots.len() - i,
        {
            let ballot = ballots[i];
            let ghost before = *self;
            proof {
                assert(ballots@.take(i + 1).drop_last() =~= ballots@.take(i as int));
                assert(ballots@.take(i + 1).last() == ballots@[i as int]);
            }
            let done = self.unstake_voting(voting_id, ballot, voter_contract);
            if let Err(e) = done {
                proof {
                    let w = ballot.voter.0 as int;
                    lemma_ballots_staked_prefix(ballots@, i + 1, w);
                }
                return Err(e);
            }
            proof {
                assert forall|a: int| self.open_votings(a) == voting_origins_removed(
                    old(self).open_votings(a),
                    ballots@.take(i + 1),
                    voter_contract,
                    voting_id,
                    a,
                ) by {
                    assert(before.open_votings(a) == voting_origins_removed(
                        old(self).open_votings(a),
                        ballots@.take(i as int),
                        voter_contract,
                        voting_id,
                        a,
                    ));
                }
            }
            i += 1;
        }
        proof {
            assert(ballots@.take(ballots@.len() as int) =~= ballots@);
        }
        Ok(())
    }

    /// Returns all open bid origins of `address`.
    pub fn get_bids(&self, address: &Address) -> (r: Vec<Origin>)
        ensures
            r@.to_multiset() == self.open_bids(address.0 as int),
    {
        if (address.0 as usize) >= self.bids.len() {
            let empty: Vec<Origin> = Vec::new();
            proof {
                assert(empty@.to_multiset() =~= Multiset::<Origin>::empty());
            }
            return empty;
        }
        let records = &self.bids[address.0 as usize];
        Self::collect_open(records)
    }

    /// Returns all open voting origins of `address`.
    pub fn get_votings(&self, address: &Address) -> (r: Vec<Origin>)
        ensures
            r@.to_multiset() == self.open_votings(address.0 as int),
    {
        if (address.0 as usize) >= self.votings.len() {
            let empty: Vec<Origin> = Vec::new();
            proof {
                assert(empty@.to_multiset() =~= Multiset::<Origin>::empty());
            }
            return empty;
        }
        let records = &self.votings[address.0 as usize];
        Self::collect_open(records)
    }

    /// Collects the non-hole entries of one origin list.
    fn collect_open(records: &Vec<Option<Origin>>) -> (r: Vec<Origin>)
        ensures
            r@.to_multiset() == open_records(records@),
    {
        let mut result: Vec<Origin> = Vec::new();
        let mut i: usize = 0;
        while i < records.len()
            invariant
                i <= records.len(),
                result@.to_multiset() == open_records(records@.take(i as int)),
            decreases records.len() - i,
        {
            proof {
                assert(records@.take(i + 1).drop_last() =~= records@.take(i as int));
                assert(records@.take(i + 1).last() == records@[i as int]);
            }
            match records[i] {
                Some(origin) => {
                    let ghost prev = result@;
                    result.push(origin);
                    proof {
                        assert(result@ =~= prev.push(origin));
                        prev.to_multiset_ensures();
                    }
                }
                None => {}
            }
            i += 1;
        }
        proof {
            assert(records@.take(records@.len() as int) =~= records@);
        }
        result
    }

    /// The unlocked part of the balance: balance minus locked total,
    /// floored at zero.
    fn available_balance(&self, balances: &BalanceStorage, address: Address) -> (r: Balance)
        ensures
            r == if self.locked(address.0 as int) > balances.bal(address.0 as int) {
                0
            } else {
                balances.bal(address.0 as int) - self.locked(address.0 as int)
            },
    {
        let balance = balances.balance_of(address);
        let locked = self.get_stake(address);
        if locked > balance {
            0
        } else {
            balance - locked
        }
    }

    fn inc_total_stake(&mut self, account: Address, amount: Balance)
        requires
            old(self).locked(account.0 as int) + amount <= u64::MAX,
        ensures
            final(self).locked(account.0 as int)
                == old(self).locked(account.0 as int) + amount,
            forall|a: int| a != account.0 as int
                ==> final(self).locked(a) == old(self).locked(a),
            forall|a: int| final(self).bid_records(a) =~= old(self).bid_records(a),
            forall|a: int| final(self).voting_records(a) =~= old(self).voting_records(a),
            forall|a: int| final(self).open_bids(a) == old(self).open_bids(a),
            forall|a: int| final(self).open_votings(a) == old(self).open_votings(a),
    {
        self.ensure_slot(account);
        let idx = account.0 as usize;
        let updated = self.total_stake[idx] + amount;
        self.total_stake.set(idx, updated);
        proof {
            assert(forall|a: int| final(self).bid_records(a) =~= old(self).bid_records(a));
            assert(forall|a: int|
                final(self).voting_records(a) =~= old(self).voting_records(a));
        }
    }

    fn dec_total_stake(&mut self, account: Address, amount: Balance) -> (r: Result<(), Error>)
        ensures
            match r {
                Ok(()) => {
                    &&& amount <= old(self).locked(account.0 as int)
                    &&& final(self).locked(account.0 as int)
                        == old(self).locked(account.0 as int) - amount
                    &&& forall|a: int| a != account.0 as int
                        ==> final(self).locked(a) == old(self).locked(a)
                    &&& forall|a: int| final(self).open_bids(a) == old(self).open_bids(a)
                    &&& forall|a: int|
                        final(self).open_votings(a) == old(self).open_votings(a)
                },
                Err(e) => {
                    &&& e == Error::ZeroStake
                    &&& amount > old(self).locked(account.0 as int)
                    &&& *final(self) == *old(self)
                },
            },
    {
        let current = self.get_stake(account);
        if amount > current {
            return Err(Error::ZeroStake);
        }
        if amount == 0 {
            return Ok(());
        }
        let idx = account.0 as usize;
        let updated = self.total_stake[idx] - amount;
        self.total_stake.set(idx, updated);
        Ok(())
    }

    fn push_bid_record(&mut self, account: Address, record: Origin)
        ensures
            final(self).open_bids(account.0 as int)
                == old(self).open_bids(account.0 as int).insert(record),
            forall|a: int| a != account.0 as int
                ==> final(self).open_bids(a) == old(self).open_bids(a),
            forall|a: int| final(self).locked(a) == old(self).locked(a),
            forall|a: int| final(self).open_votings(a) == old(self).open_votings(a),
    {
        self.ensure_slot(account);
        let idx = account.0 as usize;
        let ghost prev = self.bids@[idx as int]@;
        self.bids[idx].push(Some(record));
        proof {
            assert(self.bids@[idx as int]@ =~= prev.push(Some(record)));
            lemma_open_records_push_some(prev, record);
        }
    }

    fn push_voting_record(&mut self, account: Address, record: Origin)
        ensures
            final(self).open_votings(account.0 as int)
                == old(self).open_votings(account.0 as int).insert(record),
            forall|a: int| a != account.0 as int
                ==> final(self).open_votings(a) == old(self).open_votings(a),
            forall|a: int| final(self).locked(a) == old(self).locked(a),
            forall|a: int| final(self).open_bids(a) == old(self).open_bids(a),
    {
        self.ensure_slot(account);
        let idx = account.0 as usize;
        let ghost prev = self.votings@[idx as int]@;
        self.votings[idx].push(Some(record));
        proof {
            assert(self.votings@[idx as int]@ =~= prev.push(Some(record)));
            lemma_open_records_push_some(prev, record);
        }
    }

    /// Punches a hole over the first entry matching `record` in `list`,
    /// if there is one.
    fn remove_record_in(list: &mut Vec<Option<Origin>>, record: Origin)
        ensures
            open_records(final(list)@)
                == if open_records(old(list)@).count(record) > 0 {
                    open_records(old(list)@).remove(record)
                } else {
                    open_records(old(list)@)
                },
    {
        let mut i: usize = 0;
        while i < list.len()
            invariant
                i <= list.len(),
                list@ == old(list)@,
                forall|j: int| 0 <= j < i ==> list@[j] != Some(record),
            decreases list.len() - i,
        {
            if let Some(existing) = list[i] {
                if existing.0 == record.0 && existing.1 == record.1 {
                    proof {
                        lemma_open_records_update_none(list@, i as int, record);
                        lemma_open_records_count_at(list@, i as int);
                    }
                    list.set(i, None);
                    return;
                }
            }
            i += 1;
        }
        proof {
            lemma_open_records_no_occurrence(list@, record);
        }
    }

    fn remove_bid_record(&mut self, account: Address, record: Origin)
        ensures
            final(self).open_bids(account.0 as int)
                == if old(self).open_bids(account.0 as int).count(record) > 0 {
                    old(self).open_bids(account.0 as int).remove(record)
                } else {
                    old(self).open_bids(account.0 as int)
                },
            forall|a: int| a != account.0 as int
                ==> final(self).open_bids(a) == old(self).open_bids(a),
            forall|a: int| final(self).locked(a) == old(self).locked(a),
            forall|a: int| final(self).open_votings(a) == old(self).open_votings(a),
    {
        let idx = account.0 as usize;
        if idx >= self.bids.len() {
            proof {
                lemma_open_records_count_zero(self.bid_records(idx as int), record);
            }
            return;
        }
        let list = &mut self.bids[idx];
        Self::remove_record_in(list, record);
        proof {
            assert(forall|a: int| a != account.0 as int
                ==> final(self).bid_records(a) =~= old(self).bid_records(a));
            assert(forall|a: int|
                final(self).voting_records(a) =~= old(self).voting_records(a));
        }
    }

    fn remove_voting_record(&mut self, account: Address, record: Origin)
        ensures
            final(self).open_votings(account.0 as int)
                == if old(self).open_votings(account.0 as int).count(record) > 0 {
                    old(self).open_votings(account.0 as int).remove(record)
                } else {
                    old(self).open_votings(account.0 as int)
                },
            forall|a: int| a != account.0 as int
                ==> final(self).open_votings(a) == old(self).open_votings(a),
            forall|a: int| final(self).locked(a) == old(self).locked(a),
            forall|a: int| final(self).open_bids(a) == old(self).open_bids(a),
    {
        let idx = account.0 as usize;
        if idx >= self.votings.len() {
            proof {
                lemma_open_records_count_zero(self.voting_records(idx as int), record);
            }
            return;
        }
        let list = &mut self.votings[idx];
        Self::remove_record_in(list, record);
        proof {
            assert(forall|a: int| a != account.0 as int
                ==> final(self).voting_records(a) =~= old(self).voting_records(a));
            assert(forall|a: int|
                final(self).bid_records(a) =~= old(self).bid_records(a));
        }
    }
}

/// An empty list holds no open origins.
proof fn lemma_open_records_count_zero(s: Seq<Option<Origin>>, o: Origin)
    requires
        s.len() == 0,
    ensures
        open_records(s).count(o) == 0,
{
}

/// An open entry contributes a positive count for its origin.
proof fn lemma_open_records_count_at(s: Seq<Option<Origin>>, i: int)
    requires
        0 <= i < s.len(),
        s[i] is Some,
    ensures
        open_records(s).count(s[i]->0) > 0,
    decreases s.len(),
{
    if i == s.len() - 1 {
    } else {
        assert(s.drop_last()[i] == s[i]);
        lemma_open_records_count_at(s.drop_last(), i);
    }
}

/// A list without a matching open entry holds no occurrence of that
/// origin.
proof fn lemma_open_records_no_occurrence(s: Seq<Option<Origin>>, o: Origin)
    requires
        forall|j: int| 0 <= j < s.len() ==> s[j] != Some(o),
    ensures
        open_records(s).count(o) == 0,
    decreases s.len(),
{
    if s.len() > 0 {
        assert(forall|j: int| 0 <= j < s.drop_last().len()
            ==> s.drop_last()[j] == s[j]);
        lemma_open_records_no_occurrence(s.drop_last(), o);
    }
}

} // verus!
