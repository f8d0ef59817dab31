//! The bidding process: posting job offers, submitting, cancelling,
//! picking and slashing bids.
//!
//! The central invariant: every bid belongs to exactly one offer, and
//! the bids of an offer always match its status — while an offer is
//! open its bids are open or withdrawn; once it is in progress exactly
//! one bid is picked and every other one is rejected or withdrawn;
//! once it is cancelled every bid is withdrawn.

use vstd::prelude::*;

verus! {

use crate::bid::auction_admits;
use crate::bid::Bid;
use crate::bid::BidStatus;
use crate::bid::SubmitBidRequest;
use crate::configuration::Configuration;
use crate::configuration::TIME_BOUND;
use crate::errors::Error;
use crate::job::Job;
use crate::job::PickBidRequest;
use crate::job_offer::AuctionState;
use crate::job_offer::JobOffer;
use crate::job_offer::JobOfferStatus;
use crate::job_offer::PostJobOfferRequest;
use crate::reputation::ReputationContract;
use crate::stakes::ShortenedBid;
use crate::types::Address;
use crate::types::Balance;
use crate::types::BidId;
use crate::types::BlockTime;
use crate::types::JobId;
use crate::types::JobOfferId;
use crate::types::Transfer;
use crate::types::TransferReason;

/// What the bids of an offer may look like, given the offer's status.
pub open spec fn offer_bids_consistent(
    offer_status: JobOfferStatus,
    bids: Seq<Bid>,
    ids: Seq<BidId>,
) -> bool {
    match offer_status {
        JobOfferStatus::Created => forall|k: int| 0 <= k < ids.len()
            ==> bids[(#[trigger] ids[k]) as int].status == BidStatus::Created
                || bids[ids[k] as int].status == BidStatus::Cancelled,
        JobOfferStatus::InProgress | JobOfferStatus::Completed => {
            &&& exists|k: int| 0 <= k < ids.len()
                && bids[(#[trigger] ids[k]) as int].status == BidStatus::Picked
            &&& forall|k: int, l: int| 0 <= k < ids.len() && 0 <= l < ids.len()
                && bids[(#[trigger] ids[k]) as int].status == BidStatus::Picked
                && bids[(#[trigger] ids[l]) as int].status == BidStatus::Picked ==> k == l
            &&& forall|k: int| 0 <= k < ids.len()
                ==> bids[(#[trigger] ids[k]) as int].status != BidStatus::Created
        },
        JobOfferStatus::Cancelled => forall|k: int| 0 <= k < ids.len()
            ==> bids[(#[trigger] ids[k]) as int].status == BidStatus::Cancelled,
    }
}

/// Manages the bidding process.
#[derive(Clone, PartialEq, Eq, Debug)]
pub struct BidEngine {
    /// The account of the contract embedding this engine; it is the
    /// origin recorded for the reputation it locks.
    pub self_address: Address,
    /// Owner and whitelist gating the slashing entry points.
    pub access_control: crate::access_control::AccessControl,
    /// All job offers, indexed by identifier.
    pub job_offers: Vec<JobOffer>,
    /// All bids ever submitted, indexed by identifier; never deleted.
    pub bids: Vec<Bid>,
    /// The bids of each offer, in submission order.
    pub offer_bids: Vec<Vec<BidId>>,
    /// All jobs, indexed by identifier.
    pub jobs: Vec<Job>,
}

impl BidEngine {
    /// The bid identifiers of offer `o`.
    pub open spec fn ids_of(self, o: int) -> Seq<BidId> {
        self.offer_bids@[o]@
    }

    /// Well-formedness of one offer: it knows its own index, its bid
    /// list is sound, and its bids' statuses match its own.
    pub open spec fn offer_wf(self, o: int) -> bool {
        &&& self.job_offers@[o].job_offer_id == o
        &&& self.job_offers@[o].wf()
        &&& forall|k: int| 0 <= k < self.ids_of(o).len()
            ==> (#[trigger] self.ids_of(o)[k]) < self.bids@.len()
                && self.bids@[self.ids_of(o)[k] as int].job_offer_id == o
        &&& forall|k: int, l: int| 0 <= k < l < self.ids_of(o).len()
            ==> (#[trigger] self.ids_of(o)[k]) != (#[trigger] self.ids_of(o)[l])
        &&& offer_bids_consistent(self.job_offers@[o].status, self.bids@, self.ids_of(o))
    }

    /// Well-formedness of the whole engine.
    pub open spec fn wf(self) -> bool {
        &&& self.offer_bids@.len() == self.job_offers@.len()
        &&& self.job_offers@.len() <= 0xFFFF_FFFF
        &&& self.bids@.len() <= 0xFFFF_FFFF
        &&& self.jobs@.len() <= 0xFFFF_FFFF
        &&& forall|o: int| 0 <= o < self.job_offers@.len() ==> self.offer_wf(o)
        &&& forall|b: int| 0 <= b < self.bids@.len()
            ==> (#[trigger] self.bids@[b]).bid_id == b && self.bids@[b].wf()
                && self.bids@[b].job_offer_id < self.job_offers@.len()
        &&& forall|b: int| 0 <= b < self.bids@.len()
            ==> self.ids_of((#[trigger] self.bids@[b]).job_offer_id as int).contains(b as BidId)
        &&& forall|j: int| 0 <= j < self.jobs@.len()
            ==> (#[trigger] self.jobs@[j]).job_id == j && self.jobs@[j].wf()
    }

    /// Creates an empty engine for the contract at `self_address`,
    /// owned and whitelisted to `deployer`.
    pub fn new(self_address: Address, deployer: Address) -> (r: Self)
        ensures
            r.wf(),
            r.self_address == self_address,
            r.job_offers@.len() == 0,
            r.bids@.len() == 0,
            r.jobs@.len() == 0,
            r.access_control.owner.owner == Some(deployer),
            r.access_control.whitelist.contains_spec(deployer),
    {
        let mut access_control = crate::access_control::AccessControl::new();
        access_control.init(deployer);
        BidEngine {
            self_address,
            access_control,
            job_offers: Vec::new(),
            bids: Vec::new(),
            offer_bids: Vec::new(),
            jobs: Vec::new(),
        }
    }

    /// Gets the total number of job offers.
    pub fn job_offers_count(&self) -> (r: u32)
        requires
            self.wf(),
        ensures
            r == self.job_offers@.len(),
    {
        self.job_offers.len() as u32
    }

    /// Gets the total number of bids.
    pub fn bids_count(&self) -> (r: u32)
        requires
            self.wf(),
        ensures
            r == self.bids@.len(),
    {
        self.bids.len() as u32
    }

    /// Gets the job offer with the given identifier, if any.
    pub fn get_job_offer(&self, job_offer_id: JobOfferId) -> (r: Option<JobOffer>)
        ensures
            r == if job_offer_id < self.job_offers@.len() {
                Some(self.job_offers@[job_offer_id as int])
            } else {
                Option::<JobOffer>::None
            },
    {
        if (job_offer_id as usize) < self.job_offers.len() {
            Some(self.job_offers[job_offer_id as usize])
        } else {
            None
        }
    }

    /// Gets the job offer with the given identifier, or fails with
    /// `JobOfferNotFound`.
    pub fn get_job_offer_or_revert(&self, job_offer_id: &JobOfferId) -> (r: Result<
        JobOffer,
        Error,
    >)
        ensures
            match r {
                Ok(offer) => job_offer_id < self.job_offers@.len()
                    && offer == self.job_offers@[*job_offer_id as int],
                Err(e) => e == Error::JobOfferNotFound
                    && job_offer_id >= self.job_offers@.len(),
            },
    {
        if (*job_offer_id as usize) < self.job_offers.len() {
            Ok(self.job_offers[*job_offer_id as usize])
        } else {
            Err(Error::JobOfferNotFound)
        }
    }

    /// Gets the bid with the given identifier, if any.
    pub fn get_bid(&self, bid_id: BidId) -> (r: Option<Bid>)
        ensures
            r == if bid_id < self.bids@.len() {
                Some(self.bids@[bid_id as int])
            } else {
                Option::<Bid>::None
            },
    {
        if (bid_id as usize) < self.bids.len() {
            Some(self.bids[bid_id as usize])
        } else {
            None
        }
    }

    /// Gets the bid with the given identifier, or fails with
    /// `BidNotFound`.
    pub fn get_bid_or_revert(&self, bid_id: &BidId) -> (r: Result<Bid, Error>)
        ensures
            match r {
                Ok(bid) => bid_id < self.bids@.len() && bid == self.bids@[*bid_id as int],
                Err(e) => e == Error::BidNotFound && bid_id >= self.bids@.len(),
            },
    {
        if (*bid_id as usize) < self.bids.len() {
            Ok(self.bids[*bid_id as usize])
        } else {
            Err(Error::BidNotFound)
        }
    }

    /// What a stored bid may be replaced with without breaking the
    /// engine: same identity, same offer, sound bounds, and a status
    /// the offer's own status allows.
    pub open spec fn store_bid_ok(self, bid: Bid) -> bool {
        let o = bid.job_offer_id as int;
        let old_bid = self.bids@[bid.bid_id as int];
        &&& bid.bid_id < self.bids@.len()
        &&& bid.wf()
        &&& bid.job_offer_id == old_bid.job_offer_id
        &&& match self.job_offers@[o].status {
            JobOfferStatus::Created => bid.status == BidStatus::Created
                || bid.status == BidStatus::Cancelled,
            JobOfferStatus::InProgress | JobOfferStatus::Completed =>
                bid.status == old_bid.status,
            JobOfferStatus::Cancelled => bid.status == BidStatus::Cancelled,
        }
    }

    /// Writes a bid back to the storage.
    pub fn store_bid(&mut self, bid: Bid)
        requires
            old(self).wf(),
            old(self).store_bid_ok(bid),
        ensures
            final(self).wf(),
            final(self).bids@ == old(self).bids@.update(bid.bid_id as int, bid),
            final(self).job_offers == old(self).job_offers,
            final(self).offer_bids == old(self).offer_bids,
            final(self).jobs == old(self).jobs,
            final(self).self_address == old(self).self_address,
            final(self).access_control == old(self).access_control,
    {
        let idx = bid.bid_id as usize;
        self.bids.set(idx, bid);
        proof {
            assert forall|o: int| 0 <= o < self.job_offers@.len()
                implies self.offer_wf(o) by {
                assert(old(self).offer_wf(o));
            }
            assert forall|b: int| 0 <= b < self.bids@.len() implies self.ids_of(
                (#[trigger] self.bids@[b]).job_offer_id as int,
            ).contains(b as BidId) by {
                assert(old(self).bids@[b].job_offer_id == self.bids@[b].job_offer_id);
            }
        }
    }

    /// Gets the configuration snapshot of the offer a job belongs to.
    pub fn get_job_offer_configuration(&self, job: &Job) -> (r: Result<Configuration, Error>)
        ensures
            match r {
                Ok(c) => job.job_offer_id < self.job_offers@.len()
                    && c == self.job_offers@[job.job_offer_id as int].configuration,
                Err(e) => e == Error::JobOfferNotFound
                    && job.job_offer_id >= self.job_offers@.len(),
            },
    {
        if (job.job_offer_id as usize) < self.job_offers.len() {
            Ok(self.job_offers[job.job_offer_id as usize].configuration)
        } else {
            Err(Error::JobOfferNotFound)
        }
    }

    /// Gets the job with the given identifier, if any.
    pub fn get_job(&self, job_id: JobId) -> (r: Option<Job>)
        ensures
            match r {
                Some(job) => job_id < self.jobs@.len() && job == self.jobs@[job_id as int],
                None => job_id >= self.jobs@.len(),
            },
    {
        if (job_id as usize) < self.jobs.len() {
            Some(self.jobs[job_id as usize])
        } else {
            None
        }
    }

    /// Gets the total number of jobs.
    pub fn jobs_count(&self) -> (r: u32)
        requires
            self.wf(),
        ensures
            r == self.jobs@.len(),
    {
        self.jobs.len() as u32
    }

    /// Posts a new job offer: the caller must be KYC-verified and the
    /// anti-spam deposit must convert (at `rate`) to at least the
    /// configured fiat floor.
    pub fn post_job_offer(
        &mut self,
        caller: Address,
        caller_kyced: bool,
        block_time: BlockTime,
        expected_timeframe: BlockTime,
        budget: Balance,
        dos_fee: Balance,
        configuration: Configuration,
        rate: u64,
    ) -> (r: Result<JobOfferId, Error>)
        requires
            old(self).wf(),
            configuration.wf(),
            block_time <= TIME_BOUND,
            expected_timeframe <= TIME_BOUND,
        ensures
            final(self).wf(),
            final(self).self_address == old(self).self_address,
            final(self).bids == old(self).bids,
            final(self).jobs == old(self).jobs,
            match r {
                Ok(id) => {
                    let request = PostJobOfferRequest {
                        job_offer_id: id,
                        job_poster_kyced: caller_kyced,
                        job_poster: caller,
                        max_budget: budget,
                        expected_timeframe,
                        dos_fee,
                        start_time: block_time,
                        configuration,
                    };
                    &&& id == old(self).job_offers@.len()
                    &&& caller_kyced
                    &&& JobOffer::dos_fee_accepted(request, rate)
                    &&& final(self).job_offers@ == old(self).job_offers@.push(
                        JobOffer {
                            job_offer_id: id,
                            job_poster: caller,
                            max_budget: budget,
                            expected_timeframe,
                            dos_fee,
                            status: JobOfferStatus::Created,
                            start_time: block_time,
                            configuration,
                        },
                    )
                    &&& final(self).ids_of(id as int).len() == 0
                },
                Err(e) => {
                    let request = PostJobOfferRequest {
                        job_offer_id: old(self).job_offers@.len() as JobOfferId,
                        job_poster_kyced: caller_kyced,
                        job_poster: caller,
                        max_budget: budget,
                        expected_timeframe,
                        dos_fee,
                        start_time: block_time,
                        configuration,
                    };
                    &&& *final(self) == *old(self)
                    &&& ((e == Error::StorageFull
                        && old(self).job_offers@.len() >= 0xFFFF_FFFF)
                        || (e == Error::NotKyced && !caller_kyced)
                        || (e == Error::DosFeeTooLow
                            && !JobOffer::dos_fee_accepted(request, rate)))
                },
            },
    {
        if self.job_offers.len() >= 0xFFFF_FFFF {
            return Err(Error::StorageFull);
        }
        let job_offer_id = self.job_offers.len() as u32;
        let request = PostJobOfferRequest {
            job_offer_id,
            job_poster_kyced: caller_kyced,
            job_poster: caller,
            max_budget: budget,
            expected_timeframe,
            dos_fee,
            start_time: block_time,
            configuration,
        };
        let offer = match JobOffer::new(request, rate) {
            Ok(offer) => offer,
            Err(e) => {
                return Err(e);
            }
        };
        self.job_offers.push(offer);
        let no_bids: Vec<BidId> = Vec::new();
        self.offer_bids.push(no_bids);
        proof {
            assert forall|o: int| 0 <= o < self.job_offers@.len()
                implies self.offer_wf(o) by {
                if o < old(self).job_offers@.len() {
                    assert(old(self).offer_wf(o));
                    assert(self.ids_of(o) == old(self).ids_of(o));
                }
            }
            assert forall|b: int| 0 <= b < self.bids@.len() implies self.ids_of(
                (#[trigger] self.bids@[b]).job_offer_id as int,
            ).contains(b as BidId) by {
                assert(old(self).bids@[b].job_offer_id < old(self).job_offers@.len());
                assert(self.ids_of(self.bids@[b].job_offer_id as int)
                    == old(self).ids_of(old(self).bids@[b].job_offer_id as int));
            }
        }
        Ok(job_offer_id)
    }

    /// Submits a bid on an open offer during one of its auction
    /// windows. A reputation stake is locked in the ledger; a
    /// native-currency stake is held by the contract.
    pub fn submit_bid(
        &mut self,
        reputation: &mut ReputationContract,
        caller: Address,
        caller_kyced: bool,
        caller_is_va: bool,
        block_time: BlockTime,
        job_offer_id: JobOfferId,
        time: BlockTime,
        payment: Balance,
        reputation_stake: Balance,
        onboard: bool,
        cspr_stake: Option<Balance>,
    ) -> (r: Result<BidId, Error>)
        requires
            old(self).wf(),
            old(reputation).wf(),
            block_time <= TIME_BOUND,
            time <= TIME_BOUND,
        ensures
            final(self).wf(),
            final(reputation).wf(),
            final(self).self_address == old(self).self_address,
            final(self).job_offers == old(self).job_offers,
            final(self).jobs == old(self).jobs,
            match r {
                Ok(id) => {
                    let offer = old(self).job_offers@[job_offer_id as int];
                    let request = SubmitBidRequest {
                        bid_id: id,
                        timestamp: block_time,
                        job_offer_id,
                        proposed_timeframe: time,
                        proposed_payment: payment,
                        reputation_stake,
                        cspr_stake,
                        onboard,
                        worker: caller,
                        worker_kyced: caller_kyced,
                        worker_is_va: caller_is_va,
                        job_poster: offer.job_poster,
                        max_budget: offer.max_budget,
                        auction_state: offer.auction_state_spec(block_time),
                        va_can_bid_on_public_auction:
                            offer.configuration.va_can_bid_on_public_auction,
                    };
                    &&& id == old(self).bids@.len()
                    &&& job_offer_id < old(self).job_offers@.len()
                    &&& offer.status == JobOfferStatus::Created
                    &&& caller_kyced
                    &&& caller != offer.job_poster
                    &&& payment <= offer.max_budget
                    &&& auction_admits(request) is Ok
                    &&& final(self).bids@ == old(self).bids@.push(
                        Bid {
                            bid_id: id,
                            status: BidStatus::Created,
                            timestamp: block_time,
                            job_offer_id,
                            proposed_timeframe: time,
                            proposed_payment: payment,
                            reputation_stake,
                            cspr_stake,
                            onboard,
                            worker: caller,
                        },
                    )
                    &&& final(self).ids_of(job_offer_id as int)
                        == old(self).ids_of(job_offer_id as int).push(id)
                    &&& (cspr_stake is None ==> {
                        &&& reputation_stake > 0
                        &&& final(reputation).locked(caller.0 as int)
                            == old(reputation).locked(caller.0 as int) + reputation_stake
                        &&& forall|a: int| a != caller.0 as int
                            ==> final(reputation).locked(a) == old(reputation).locked(a)
                        &&& forall|a: int|
                            final(reputation).bal(a) == old(reputation).bal(a)
                    })
                    &&& (cspr_stake is Some ==> *final(reputation) == *old(reputation))
                },
                Err(e) => {
                    let offer = old(self).job_offers@[job_offer_id as int];
                    let window = offer.auction_state_spec(block_time);
                    &&& *final(self) == *old(self)
                    &&& *final(reputation) == *old(reputation)
                    &&& ((e == Error::JobOfferNotFound
                        && job_offer_id >= old(self).job_offers@.len())
                        || (e == Error::AuctionNotRunning
                            && (offer.status != JobOfferStatus::Created
                                || window == AuctionState::Closed))
                        || (e == Error::StorageFull
                            && old(self).bids@.len() >= 0xFFFF_FFFF)
                        || (e == Error::NotKyced && !caller_kyced)
                        || (e == Error::CannotBidOnOwnJob && caller == offer.job_poster)
                        || (e == Error::VaOnboardedAlready && onboard && caller_is_va)
                        || (e == Error::PaymentExceedsMaxBudget
                            && payment > offer.max_budget)
                        || (e == Error::OnlyOnboardedWorkerCanBid
                            && window == AuctionState::Internal && !caller_is_va)
                        || (e == Error::OnboardedWorkerCannotBid
                            && window == AuctionState::Public && caller_is_va
                            && !offer.configuration.va_can_bid_on_public_auction)
                        || (e == Error::ZeroStake
                            && cspr_stake is None && reputation_stake == 0)
                        || (e == Error::NotWhitelisted
                            && !old(reputation).access_control.whitelist.contains_spec(
                            old(self).self_address,
                        ))
                        || (e == Error::InsufficientBalance && cspr_stake is None
                            && old(reputation).locked(caller.0 as int) + reputation_stake
                                > old(reputation).bal(caller.0 as int)))
                },
            },
    {
        let offer = match self.get_job_offer_or_revert(&job_offer_id) {
            Ok(offer) => offer,
            Err(e) => {
                return Err(e);
            }
        };
        if offer.status != JobOfferStatus::Created {
            return Err(Error::AuctionNotRunning);
        }
        if self.bids.len() >= 0xFFFF_FFFF {
            return Err(Error::StorageFull);
        }
        let bid_id = self.bids.len() as u32;
        proof {
            assert(self.offer_wf(job_offer_id as int));
        }
        let auction_state = offer.auction_state(block_time);
        let request = SubmitBidRequest {
            bid_id,
            timestamp: block_time,
            job_offer_id,
            proposed_timeframe: time,
            proposed_payment: payment,
            reputation_stake,
            cspr_stake,
            onboard,
            worker: caller,
            worker_kyced: caller_kyced,
            worker_is_va: caller_is_va,
            job_poster: offer.job_poster,
            max_budget: offer.max_budget,
            auction_state,
            va_can_bid_on_public_auction: offer.configuration.va_can_bid_on_public_auction,
        };
        let bid = match Bid::new(request) {
            Ok(bid) => bid,
            Err(e) => {
                return Err(e);
            }
        };
        // A bid without a native-currency stake locks reputation.
        if cspr_stake.is_none() {
            let staked = reputation.stake_bid(
                self.self_address,
                ShortenedBid { bid_id, reputation_stake, worker: caller },
            );
            if let Err(e) = staked {
                return Err(e);
            }
        }
        self.bids.push(bid);
        let ghost pre_ids = self.ids_of(job_offer_id as int);
        self.offer_bids[job_offer_id as usize].push(bid_id);
        proof {
            assert(self.ids_of(job_offer_id as int) =~= pre_ids.push(bid_id));
            assert forall|o: int| 0 <= o < self.job_offers@.len()
                implies self.offer_wf(o) by {
                assert(old(self).offer_wf(o));
                if o != job_offer_id as int {
                    assert(self.ids_of(o) == old(self).ids_of(o));
                    assert forall|k: int| 0 <= k < self.ids_of(o).len()
                        implies (#[trigger] self.ids_of(o)[k]) < self.bids@.len()
                            && self.bids@[self.ids_of(o)[k] as int].job_offer_id == o by {
                        assert(old(self).ids_of(o)[k] < old(self).bids@.len());
                    }
                }
            }
            assert forall|b: int| 0 <= b < self.bids@.len() implies self.ids_of(
                (#[trigger] self.bids@[b]).job_offer_id as int,
            ).contains(b as BidId) by {
                if b < old(self).bids@.len() {
                    assert(old(self).ids_of(old(self).bids@[b].job_offer_id as int).contains(
                        b as BidId,
                    ));
                    let o = old(self).bids@[b].job_offer_id as int;
                    let k = choose|k: int| 0 <= k < old(self).ids_of(o).len()
                        && old(self).ids_of(o)[k] == b as BidId;
                    assert(self.ids_of(o)[k] == b as BidId);
                } else {
                    assert(self.ids_of(job_offer_id as int)[pre_ids.len() as int]
                        == bid_id);
                }
            }
        }
        Ok(bid_id)
    }
}

/// A rejected copy of a bid.
pub open spec fn rejected_bid(b: Bid) -> Bid {
    Bid { status: BidStatus::Rejected, ..b }
}

/// A cancelled copy of a bid.
pub open spec fn cancelled_bid(b: Bid) -> Bid {
    Bid { status: BidStatus::Cancelled, ..b }
}

/// Whether a bid is reversed by a pick of `chosen`: it is another,
/// still-open bid on the same offer.
pub open spec fn reversed_by_pick(b: Bid, chosen: BidId) -> bool {
    b.bid_id != chosen && b.status == BidStatus::Created
}

/// The ledger unstake orders for the still-open bids of an offer,
/// skipping `chosen`, in list order.
pub open spec fn open_bid_unstakes(bids: Seq<Bid>, ids: Seq<BidId>, chosen: BidId) -> Seq<
    crate::stakes::ShortenedBid,
>
    decreases ids.len(),
{
    if ids.len() == 0 {
        Seq::empty()
    } else {
        open_bid_unstakes(bids, ids.drop_last(), chosen)
            + if ids.last() < bids.len()
                && reversed_by_pick(bids[ids.last() as int], chosen) {
                seq![
                    ShortenedBid {
                        bid_id: bids[ids.last() as int].bid_id,
                        reputation_stake: bids[ids.last() as int].reputation_stake,
                        worker: bids[ids.last() as int].worker,
                    },
                ]
            } else {
                Seq::empty()
            }
    }
}

/// The native-currency refunds for the still-open bids of an offer,
/// skipping `chosen`, in list order.
pub open spec fn open_bid_refunds(bids: Seq<Bid>, ids: Seq<BidId>, chosen: BidId) -> Seq<
    Transfer,
>
    decreases ids.len(),
{
    if ids.len() == 0 {
        Seq::empty()
    } else {
        open_bid_refunds(bids, ids.drop_last(), chosen)
            + if ids.last() < bids.len()
                && reversed_by_pick(bids[ids.last() as int], chosen)
                && bids[ids.last() as int].cspr_stake is Some {
                seq![
                    Transfer {
                        to: bids[ids.last() as int].worker,
                        amount: bids[ids.last() as int].cspr_stake->0,
                        reason: TransferReason::BidStakeReturn,
                    },
                ]
            } else {
                Seq::empty()
            }
    }
}

impl BidEngine {
    /// Reverses every still-open bid of an offer except `chosen`:
    /// native-currency stakes become refund orders, reputation stakes
    /// are released in one ledger call, and each reversed bid gets the
    /// status `new_status` (rejected on a pick, cancelled on a
    /// withdrawal).
    fn reverse_open_bids(
        &mut self,
        reputation: &mut ReputationContract,
        job_offer_id: JobOfferId,
        chosen: BidId,
        reject: bool,
    ) -> (r: Result<Vec<Transfer>, Error>)
        requires
            old(self).wf(),
            old(reputation).wf(),
            job_offer_id < old(self).job_offers@.len(),
        ensures
            final(reputation).wf(),
            final(self).self_address == old(self).self_address,
            final(self).access_control == old(self).access_control,
            final(self).job_offers == old(self).job_offers,
            final(self).offer_bids == old(self).offer_bids,
            final(self).jobs == old(self).jobs,
            final(self).bids@.len() == old(self).bids@.len(),
            forall|b: int| 0 <= b < old(self).bids@.len()
                && (#[trigger] old(self).bids@[b]).job_offer_id != job_offer_id
                ==> final(self).bids@[b] == old(self).bids@[b],
            forall|a: int| final(reputation).bal(a) == old(reputation).bal(a),
            final(reputation).access_control == old(reputation).access_control,
            match r {
                Ok(transfers) => {
                    let ids = old(self).ids_of(job_offer_id as int);
                    &&& forall|b: int| 0 <= b < old(self).bids@.len()
                        && (#[trigger] old(self).bids@[b]).job_offer_id == job_offer_id
                        ==> final(self).bids@[b]
                            == if reversed_by_pick(old(self).bids@[b], chosen) {
                                if reject {
                                    rejected_bid(old(self).bids@[b])
                                } else {
                                    cancelled_bid(old(self).bids@[b])
                                }
                            } else {
                                old(self).bids@[b]
                            }
                    &&& transfers@ == open_bid_refunds(old(self).bids@, ids, chosen)
                    &&& forall|a: int| final(reputation).locked(a)
                        == old(reputation).locked(a) - crate::stakes::bids_staked_of(
                            open_bid_unstakes(old(self).bids@, ids, chosen),
                            a,
                        )
                },
                Err(e) => {
                    let ids = old(self).ids_of(job_offer_id as int);
                    &&& ((e == Error::ZeroStake && exists|a: int|
                        crate::stakes::bids_staked_of(
                            open_bid_unstakes(old(self).bids@, ids, chosen),
                            a,
                        ) > old(reputation).locked(a))
                        || (e == Error::NotWhitelisted
                            && !old(reputation).access_control.whitelist.contains_spec(
                            old(self).self_address,
                        )))
                    &&& forall|a: int| final(reputation).locked(a)
                        <= old(reputation).locked(a)
                },
            },
    {
        let o = job_offer_id as usize;
        proof {
            assert(self.offer_wf(o as int));
        }
        let ghost ids = self.ids_of(o as int);
        let ghost pre_bids = self.bids@;
        let mut transfers: Vec<Transfer> = Vec::new();
        let mut unstakes: Vec<ShortenedBid> = Vec::new();
        let count = self.offer_bids[o].len();
        let mut k: usize = 0;
        while k < count
            invariant
                old(self).wf(),
                old(self).offer_wf(job_offer_id as int),
                job_offer_id < old(self).job_offers@.len(),
                o == job_offer_id as usize,
                self.self_address == old(self).self_address,
                self.access_control == old(self).access_control,
                self.job_offers == old(self).job_offers,
                self.offer_bids == old(self).offer_bids,
                self.jobs == old(self).jobs,
                ids == old(self).ids_of(job_offer_id as int),
                pre_bids == old(self).bids@,
                count == ids.len(),
                k <= count,
                self.bids@.len() == pre_bids.len(),
                forall|l: int| 0 <= l < ids.len()
                    ==> (#[trigger] ids[l]) < pre_bids.len()
                        && pre_bids[ids[l] as int].job_offer_id == job_offer_id
                        && pre_bids[ids[l] as int].bid_id == ids[l],
                forall|l: int| 0 <= l < ids.len()
                    ==> #[trigger] self.bids@[ids[l] as int]
                        == if l < k && reversed_by_pick(pre_bids[ids[l] as int], chosen) {
                            if reject {
                                rejected_bid(pre_bids[ids[l] as int])
                            } else {
                                cancelled_bid(pre_bids[ids[l] as int])
                            }
                        } else {
                            pre_bids[ids[l] as int]
                        },
                forall|b: int| 0 <= b < pre_bids.len()
                    && !ids.contains((#[trigger] pre_bids[b]).bid_id)
                    ==> self.bids@[b] == pre_bids[b],
                transfers@ == open_bid_refunds(pre_bids, ids.take(k as int), chosen),
                unstakes@ == open_bid_unstakes(pre_bids, ids.take(k as int), chosen),
            decreases count - k,
        {
            let id = self.offer_bids[o][k];
            proof {
                assert(ids.take(k + 1).drop_last() =~= ids.take(k as int));
                assert(ids.take(k + 1).last() == ids[k as int]);
            }
            let bid = self.bids[id as usize];
            if bid.bid_id != chosen && bid.status == BidStatus::Created {
                match bid.cspr_stake {
                    Some(cspr) => {
                        transfers.push(Transfer {
                            to: bid.worker,
                            amount: cspr,
                            reason: TransferReason::BidStakeReturn,
                        });
                    }
                    None => {}
                }
                unstakes.push(ShortenedBid {
                    bid_id: bid.bid_id,
                    reputation_stake: bid.reputation_stake,
                    worker: bid.worker,
                });
                let mut updated = bid;
                if reject {
                    updated.status = BidStatus::Rejected;
                } else {
                    updated.status = BidStatus::Cancelled;
                }
                self.bids.set(id as usize, updated);
                proof {
                    assert forall|l: int| 0 <= l < ids.len() && l != k as int
                        implies ids[l] != ids[k as int] by {
                        assert(old(self).offer_wf(job_offer_id as int));
                    }
                }
            }
            proof {
                assert(transfers@ =~= open_bid_refunds(pre_bids, ids.take(k + 1), chosen));
                assert(unstakes@ =~= open_bid_unstakes(pre_bids, ids.take(k + 1), chosen));
            }
            k += 1;
        }
        proof {
            assert(ids.take(ids.len() as int) =~= ids);
        }
        let caller = self.self_address;
        let released = reputation.bulk_unstake_bid(caller, &unstakes);
        if let Err(e) = released {
            return Err(e);
        }
        proof {
            assert forall|b: int| 0 <= b < pre_bids.len()
                && (#[trigger] pre_bids[b]).job_offer_id == job_offer_id
                implies self.bids@[b] == if reversed_by_pick(pre_bids[b], chosen) {
                    if reject {
                        rejected_bid(pre_bids[b])
                    } else {
                        cancelled_bid(pre_bids[b])
                    }
                } else {
                    pre_bids[b]
                } by {
                assert(old(self).ids_of(job_offer_id as int).contains(b as BidId));
                let l = choose|l: int| 0 <= l < ids.len() && ids[l] == b as BidId;
                assert(self.bids@[ids[l] as int]
                    == if l < ids.len() && reversed_by_pick(pre_bids[ids[l] as int], chosen) {
                        if reject {
                            rejected_bid(pre_bids[ids[l] as int])
                        } else {
                            cancelled_bid(pre_bids[ids[l] as int])
                        }
                    } else {
                        pre_bids[ids[l] as int]
                    });
            }
            assert forall|b: int| 0 <= b < pre_bids.len()
                && (#[trigger] pre_bids[b]).job_offer_id != job_offer_id
                implies self.bids@[b] == pre_bids[b] by {
                if ids.contains(pre_bids[b].bid_id) {
                    let l = choose|l: int| 0 <= l < ids.len()
                        && ids[l] == pre_bids[b].bid_id;
                    assert(pre_bids[ids[l] as int].job_offer_id == job_offer_id);
                }
            }
        }
        Ok(transfers)
    }
}



/// Two bid stores that agree on the listed bids produce the same
/// unstake orders for that list.
pub proof fn lemma_open_bid_unstakes_same(
    bids1: Seq<Bid>,
    bids2: Seq<Bid>,
    ids: Seq<BidId>,
    chosen: BidId,
)
    requires
        forall|k: int| 0 <= k < ids.len()
            ==> (#[trigger] ids[k]) < bids1.len() && ids[k] < bids2.len()
                && bids1[ids[k] as int] == bids2[ids[k] as int],
    ensures
        open_bid_unstakes(bids1, ids, chosen) == open_bid_unstakes(bids2, ids, chosen),
    decreases ids.len(),
{
    if ids.len() > 0 {
        assert(forall|k: int| 0 <= k < ids.drop_last().len()
            ==> ids.drop_last()[k] == ids[k]);
        lemma_open_bid_unstakes_same(bids1, bids2, ids.drop_last(), chosen);
    }
}

impl BidEngine {
    /// The reputation account `a` has locked behind the still-open
    /// bids of `bidder`'s first `upto` still-open job offers: what a
    /// slash of `bidder` releases.
    pub open spec fn slashable_staked_of(self, bidder: Address, a: int, upto: int) -> int
        decreases upto,
    {
        if upto <= 0 {
            0
        } else {
            self.slashable_staked_of(bidder, a, upto - 1)
                + if self.job_offers@[upto - 1].job_poster == bidder
                    && self.job_offers@[upto - 1].status == JobOfferStatus::Created {
                    crate::stakes::bids_staked_of(
                        open_bid_unstakes(self.bids@, self.ids_of(upto - 1), NO_BID),
                        a,
                    )
                } else {
                    0
                }
        }
    }

    /// The slashable total only grows with the offer range.
    pub proof fn lemma_slashable_monotone(self, bidder: Address, a: int, k: int, n: int)
        requires
            0 <= k <= n,
        ensures
            self.slashable_staked_of(bidder, a, k) <= self.slashable_staked_of(bidder, a, n),
        decreases n,
    {
        if k < n {
            self.lemma_slashable_monotone(bidder, a, k, n - 1);
            crate::stakes::lemma_bids_staked_nonneg(
                open_bid_unstakes(self.bids@, self.ids_of(n - 1), NO_BID),
                a,
            );
        }
    }
}

/// A bid identifier no stored bid can carry, used to reverse every
/// open bid of an offer.
pub const NO_BID: u32 = 0xFFFF_FFFF;

impl BidEngine {
    /// Withdraws every still-open bid of an offer: native-currency
    /// stakes become refund orders, reputation stakes are released,
    /// each reversed bid becomes `Cancelled`.
    pub fn cancel_all_bids(
        &mut self,
        reputation: &mut ReputationContract,
        job_offer_id: &JobOfferId,
    ) -> (r: Result<Vec<Transfer>, Error>)
        requires
            old(self).wf(),
            old(reputation).wf(),
            *job_offer_id < old(self).job_offers@.len(),
        ensures
            final(reputation).wf(),
            final(self).self_address == old(self).self_address,
            final(self).access_control == old(self).access_control,
            final(self).job_offers == old(self).job_offers,
            final(self).offer_bids == old(self).offer_bids,
            final(self).jobs == old(self).jobs,
            forall|a: int| final(reputation).bal(a) == old(reputation).bal(a),
            match r {
                Ok(transfers) => {
                    let ids = old(self).ids_of(*job_offer_id as int);
                    &&& final(self).wf()
                    &&& forall|b: int| 0 <= b < old(self).bids@.len()
                        ==> final(self).bids@[b]
                            == if (#[trigger] old(self).bids@[b]).job_offer_id
                                == job_offer_id
                                && old(self).bids@[b].status == BidStatus::Created {
                                cancelled_bid(old(self).bids@[b])
                            } else {
                                old(self).bids@[b]
                            }
                    &&& transfers@ == open_bid_refunds(old(self).bids@, ids, NO_BID)
                    &&& forall|a: int| final(reputation).locked(a)
                        == old(reputation).locked(a) - crate::stakes::bids_staked_of(
                            open_bid_unstakes(old(self).bids@, ids, NO_BID),
                            a,
                        )
                },
                Err(e) => {
                    let ids = old(self).ids_of(*job_offer_id as int);
                    &&& ((e == Error::ZeroStake && exists|a: int|
                        crate::stakes::bids_staked_of(
                            open_bid_unstakes(old(self).bids@, ids, NO_BID),
                            a,
                        ) > old(reputation).locked(a))
                        || (e == Error::NotWhitelisted
                            && !old(reputation).access_control.whitelist.contains_spec(
                            old(self).self_address,
                        )))
                    &&& forall|a: int| final(reputation).locked(a)
                        <= old(reputation).locked(a)
                },
            },
    {
        proof {
            assert(self.offer_wf(*job_offer_id as int));
        }
        let result = self.reverse_open_bids(reputation, *job_offer_id, NO_BID, false);
        if let Err(e) = result {
            return Err(e);
        }
        proof {
            assert forall|b: int| 0 <= b < self.bids@.len()
                implies (#[trigger] self.bids@[b]).bid_id == b as int
                    && self.bids@[b].wf()
                    && self.bids@[b].job_offer_id < self.job_offers@.len() by {
                assert(old(self).bids@[b].bid_id == b as int);
            }
            assert forall|o: int| 0 <= o < self.job_offers@.len()
                implies self.offer_wf(o) by {
                assert(old(self).offer_wf(o));
                assert forall|k: int| 0 <= k < self.ids_of(o).len()
                    implies (#[trigger] self.ids_of(o)[k]) < self.bids@.len()
                        && self.bids@[self.ids_of(o)[k] as int].job_offer_id == o by {
                    assert(old(self).ids_of(o)[k] < old(self).bids@.len());
                }
            }
            assert forall|b: int| 0 <= b < self.bids@.len() implies self.ids_of(
                (#[trigger] self.bids@[b]).job_offer_id as int,
            ).contains(b as BidId) by {
                assert(old(self).ids_of(old(self).bids@[b].job_offer_id as int).contains(
                    b as BidId,
                ));
                assert(self.bids@[b].job_offer_id == old(self).bids@[b].job_offer_id);
            }
        }
        result
    }

    /// Returns the refund order for a job offer poster's anti-spam
    /// deposit.
    pub fn return_job_offer_poster_dos_fee(&self, job_offer_id: &JobOfferId) -> (r: Result<
        Transfer,
        Error,
    >)
        ensures
            match r {
                Ok(t) => job_offer_id < self.job_offers@.len()
                    && t == (Transfer {
                        to: self.job_offers@[*job_offer_id as int].job_poster,
                        amount: self.job_offers@[*job_offer_id as int].dos_fee,
                        reason: TransferReason::DOSFeeReturn,
                    }),
                Err(e) => e == Error::JobOfferNotFound
                    && job_offer_id >= self.job_offers@.len(),
            },
    {
        let offer = match self.get_job_offer_or_revert(job_offer_id) {
            Ok(offer) => offer,
            Err(e) => {
                return Err(e);
            }
        };
        Ok(Transfer {
            to: offer.job_poster,
            amount: offer.dos_fee,
            reason: TransferReason::DOSFeeReturn,
        })
    }

    /// Withdraws a bid: only the bidder, only while the offer is open
    /// and the acceptance timeout has elapsed. Returns the refund
    /// order for a native-currency stake; a reputation stake is
    /// released in the ledger.
    pub fn cancel_bid(
        &mut self,
        reputation: &mut ReputationContract,
        caller: Address,
        block_time: BlockTime,
        bid_id: BidId,
    ) -> (r: Result<Option<Transfer>, Error>)
        requires
            old(self).wf(),
            old(reputation).wf(),
        ensures
            final(reputation).wf(),
            final(self).self_address == old(self).self_address,
            final(self).access_control == old(self).access_control,
            final(self).job_offers == old(self).job_offers,
            final(self).offer_bids == old(self).offer_bids,
            final(self).jobs == old(self).jobs,
            forall|a: int| final(reputation).bal(a) == old(reputation).bal(a),
            match r {
                Ok(refund) => {
                    let bid = old(self).bids@[bid_id as int];
                    let offer = old(self).job_offers@[bid.job_offer_id as int];
                    &&& final(self).wf()
                    &&& bid_id < old(self).bids@.len()
                    &&& caller == bid.worker
                    &&& offer.status == JobOfferStatus::Created
                    &&& bid.status == BidStatus::Created
                    &&& block_time >= bid.timestamp
                        + offer.configuration.va_bid_acceptance_timeout
                    &&& final(self).bids@ == old(self).bids@.update(
                        bid_id as int,
                        cancelled_bid(bid),
                    )
                    &&& match refund {
                        Some(t) => bid.cspr_stake is Some
                            && t == (Transfer {
                                to: bid.worker,
                                amount: bid.cspr_stake->0,
                                reason: TransferReason::BidStakeReturn,
                            })
                            && *final(reputation) == *old(reputation),
                        None => {
                            &&& bid.cspr_stake is None
                            &&& final(reputation).locked(bid.worker.0 as int)
                                == old(reputation).locked(bid.worker.0 as int)
                                    - bid.reputation_stake
                            &&& forall|a: int| a != bid.worker.0 as int
                                ==> final(reputation).locked(a)
                                    == old(reputation).locked(a)
                        },
                    }
                },
                Err(e) => {
                    let bid = old(self).bids@[bid_id as int];
                    let offer = old(self).job_offers@[bid.job_offer_id as int];
                    &&& ((e == Error::BidNotFound && bid_id >= old(self).bids@.len())
                        || (e == Error::CannotCancelNotOwnedBid && caller != bid.worker)
                        || (e == Error::CannotCancelBidOnCompletedJobOffer
                            && (offer.status != JobOfferStatus::Created
                                || bid.status != BidStatus::Created))
                        || (e == Error::CannotCancelBidBeforeAcceptanceTimeout
                            && block_time < bid.timestamp
                                + offer.configuration.va_bid_acceptance_timeout)
                        || (e == Error::NotWhitelisted && bid.cspr_stake is None
                            && !old(reputation).access_control.whitelist.contains_spec(
                            old(self).self_address,
                        ))
                        || (e == Error::ZeroStake && bid.cspr_stake is None
                            && bid.reputation_stake
                                > old(reputation).locked(bid.worker.0 as int)))
                },
            },
    {
        let mut bid = match self.get_bid_or_revert(&bid_id) {
            Ok(bid) => bid,
            Err(e) => {
                return Err(e);
            }
        };
        let offer = match self.get_job_offer_or_revert(&bid.job_offer_id) {
            Ok(offer) => offer,
            Err(e) => {
                return Err(e);
            }
        };
        proof {
            assert(self.offer_wf(bid.job_offer_id as int));
        }
        let cancelled = bid.cancel(
            caller,
            offer.status,
            block_time,
            offer.configuration.va_bid_acceptance_timeout,
        );
        if let Err(e) = cancelled {
            return Err(e);
        }
        let refund: Option<Transfer> = match bid.cspr_stake {
            Some(cspr) => Some(Transfer {
                to: bid.worker,
                amount: cspr,
                reason: TransferReason::BidStakeReturn,
            }),
            None => {
                let caller_contract = self.self_address;
                let released = reputation.unstake_bid(caller_contract, bid.shortened());
                if let Err(e) = released {
                    return Err(e);
                }
                None
            }
        };
        self.store_bid(bid);
        Ok(refund)
    }

    /// Picks a bid: only the job poster, with a transfer matching the
    /// bid's payment. Every other still-open bid is rejected and its
    /// stake reversed; the picked bid and its offer advance, and the
    /// job is created.
    pub fn pick_bid(
        &mut self,
        reputation: &mut ReputationContract,
        caller: Address,
        caller_is_va_worker: bool,
        block_time: BlockTime,
        job_offer_id: JobOfferId,
        bid_id: BidId,
        cspr_amount: Balance,
    ) -> (r: Result<(JobId, Vec<Transfer>), Error>)
        requires
            old(self).wf(),
            old(reputation).wf(),
            block_time <= TIME_BOUND,
        ensures
            final(reputation).wf(),
            final(self).self_address == old(self).self_address,
            final(self).access_control == old(self).access_control,
            forall|a: int| final(reputation).bal(a) == old(reputation).bal(a),
            match r {
                Ok((job_id, transfers)) => {
                    let bid = old(self).bids@[bid_id as int];
                    let offer = old(self).job_offers@[job_offer_id as int];
                    let ids = old(self).ids_of(job_offer_id as int);
                    &&& final(self).wf()
                    &&& job_offer_id < old(self).job_offers@.len()
                    &&& bid_id < old(self).bids@.len()
                    &&& bid.job_offer_id == job_offer_id
                    &&& offer.status == JobOfferStatus::Created
                    &&& caller == offer.job_poster
                    &&& cspr_amount == bid.proposed_payment
                    &&& job_id == old(self).jobs@.len()
                    &&& final(self).jobs@ == old(self).jobs@.push(
                        Job {
                            job_id,
                            bid_id,
                            job_offer_id,
                            status: crate::job::JobStatus::Created,
                            worker: bid.worker,
                            worker_is_va: caller_is_va_worker,
                            onboard: bid.onboard,
                            poster: offer.job_poster,
                            finish_time: (block_time + bid.proposed_timeframe) as u64,
                            payment: bid.proposed_payment,
                            stake: bid.reputation_stake,
                            external_worker_cspr_stake: match bid.cspr_stake {
                                Some(c) => c,
                                None => 0,
                            },
                            proof: Option::<crate::types::DocumentHash>::None,
                            voting_id: Option::<crate::types::VotingId>::None,
                        },
                    )
                    &&& final(self).job_offers@ == old(self).job_offers@.update(
                        job_offer_id as int,
                        JobOffer { status: JobOfferStatus::InProgress, ..offer },
                    )
                    &&& forall|b: int| 0 <= b < old(self).bids@.len()
                        ==> final(self).bids@[b] == if b == bid_id as int {
                            Bid { status: BidStatus::Picked, ..old(self).bids@[b] }
                        } else if (#[trigger] old(self).bids@[b]).job_offer_id
                            == job_offer_id
                            && old(self).bids@[b].status == BidStatus::Created {
                            rejected_bid(old(self).bids@[b])
                        } else {
                            old(self).bids@[b]
                        }
                    &&& transfers@ == open_bid_refunds(old(self).bids@, ids, bid_id)
                    &&& forall|a: int| final(reputation).locked(a)
                        == old(reputation).locked(a) - crate::stakes::bids_staked_of(
                            open_bid_unstakes(old(self).bids@, ids, bid_id),
                            a,
                        )
                },
                Err(e) => {
                    let bid = old(self).bids@[bid_id as int];
                    let offer = old(self).job_offers@[job_offer_id as int];
                    let ids = old(self).ids_of(job_offer_id as int);
                    &&& ((e == Error::JobOfferNotFound
                        && job_offer_id >= old(self).job_offers@.len())
                        || (e == Error::BidNotFound
                            && (bid_id >= old(self).bids@.len()
                                || bid.job_offer_id != job_offer_id))
                        || (e == Error::AuctionNotRunning
                            && offer.status != JobOfferStatus::Created)
                        || (e == Error::StorageFull
                            && old(self).jobs@.len() >= 0xFFFF_FFFF)
                        || (e == Error::OnlyJobPosterCanPickABid
                            && caller != offer.job_poster)
                        || (e == Error::PurseBalanceMismatch
                            && cspr_amount != bid.proposed_payment)
                        || (e == Error::ZeroStake && exists|a: int|
                            crate::stakes::bids_staked_of(
                                open_bid_unstakes(old(self).bids@, ids, bid_id),
                                a,
                            ) > old(reputation).locked(a))
                        || (e == Error::NotWhitelisted
                            && !old(reputation).access_control.whitelist.contains_spec(
                            old(self).self_address,
                        )))
                },
            },
    {
        let offer = match self.get_job_offer_or_revert(&job_offer_id) {
            Ok(offer) => offer,
            Err(e) => {
                return Err(e);
            }
        };
        let bid = match self.get_bid_or_revert(&bid_id) {
            Ok(bid) => bid,
            Err(e) => {
                return Err(e);
            }
        };
        if bid.job_offer_id != job_offer_id {
            return Err(Error::BidNotFound);
        }
        if offer.status != JobOfferStatus::Created {
            return Err(Error::AuctionNotRunning);
        }
        if self.jobs.len() >= 0xFFFF_FFFF {
            return Err(Error::StorageFull);
        }
        let job_id = self.jobs.len() as u32;
        proof {
            assert(self.offer_wf(job_offer_id as int));
        }
        let request = PickBidRequest {
            job_id,
            job_offer_id,
            bid_id,
            caller,
            poster: offer.job_poster,
            worker: bid.worker,
            is_worker_va: caller_is_va_worker,
            onboard: bid.onboard,
            block_time,
            timeframe: bid.proposed_timeframe,
            payment: bid.proposed_payment,
            transferred_cspr: cspr_amount,
            stake: bid.reputation_stake,
            external_worker_cspr_stake: match bid.cspr_stake {
                Some(c) => c,
                None => 0,
            },
        };
        let job = match Job::new(&request) {
            Ok(job) => job,
            Err(e) => {
                return Err(e);
            }
        };
        let reversed = self.reverse_open_bids(reputation, job_offer_id, bid_id, true);
        let transfers = match reversed {
            Ok(transfers) => transfers,
            Err(e) => {
                return Err(e);
            }
        };
        let mut picked = self.bids[bid_id as usize];
        picked.status = BidStatus::Picked;
        self.bids.set(bid_id as usize, picked);
        self.job_offers[job_offer_id as usize].in_progress();
        self.jobs.push(job);
        proof {
            let o = job_offer_id as int;
            assert forall|b: int| 0 <= b < self.bids@.len()
                implies (#[trigger] self.bids@[b]).bid_id == b as int
                    && self.bids@[b].wf()
                    && self.bids@[b].job_offer_id < self.job_offers@.len() by {
                if old(self).bids@[b].job_offer_id == job_offer_id || b == bid_id as int {
                } else {
                    assert(self.bids@[b] == old(self).bids@[b]);
                }
            }
            assert forall|u: int| 0 <= u < self.job_offers@.len()
                implies self.offer_wf(u) by {
                assert(old(self).offer_wf(u));
                assert forall|k: int| 0 <= k < self.ids_of(u).len()
                    implies (#[trigger] self.ids_of(u)[k]) < self.bids@.len()
                        && self.bids@[self.ids_of(u)[k] as int].job_offer_id == u by {
                    assert(old(self).ids_of(u)[k] < old(self).bids@.len());
                }
                if u == o {
                    let ids = old(self).ids_of(o);
                    assert(old(self).ids_of(o).contains(bid_id));
                    let kp = choose|kp: int| 0 <= kp < ids.len() && ids[kp] == bid_id;
                    assert(self.bids@[ids[kp] as int].status == BidStatus::Picked);
                    assert forall|k: int| 0 <= k < ids.len() && k != kp
                        implies self.bids@[(#[trigger] ids[k]) as int].status
                            != BidStatus::Picked
                            && self.bids@[ids[k] as int].status != BidStatus::Created by {
                        assert(ids[k] != ids[kp]);
                        assert(old(self).bids@[ids[k] as int].status == BidStatus::Created
                            || old(self).bids@[ids[k] as int].status
                                == BidStatus::Cancelled);
                    }
                }
            }
            assert forall|b: int| 0 <= b < self.bids@.len() implies self.ids_of(
                (#[trigger] self.bids@[b]).job_offer_id as int,
            ).contains(b as BidId) by {
                assert(old(self).ids_of(old(self).bids@[b].job_offer_id as int).contains(
                    b as BidId,
                ));
                assert(self.bids@[b].job_offer_id == old(self).bids@[b].job_offer_id);
            }
            assert forall|j: int| 0 <= j < self.jobs@.len()
                implies (#[trigger] self.jobs@[j]).job_id == j && self.jobs@[j].wf() by {
                if j < old(self).jobs@.len() {
                    assert(old(self).jobs@[j].job_id == j);
                }
            }
        }
        Ok((job_id, transfers))
    }

    /// Withdraws a whole job offer: only the poster, only while no bid
    /// has been picked. Every open bid is reversed and the poster's
    /// anti-spam deposit is refunded (the last transfer order).
    pub fn cancel_job_offer(
        &mut self,
        reputation: &mut ReputationContract,
        caller: Address,
        job_offer_id: JobOfferId,
    ) -> (r: Result<Vec<Transfer>, Error>)
        requires
            old(self).wf(),
            old(reputation).wf(),
        ensures
            final(reputation).wf(),
            final(self).self_address == old(self).self_address,
            final(self).access_control == old(self).access_control,
            final(self).jobs == old(self).jobs,
            final(self).offer_bids == old(self).offer_bids,
            final(self).bids@.len() == old(self).bids@.len(),
            forall|a: int| final(reputation).bal(a) == old(reputation).bal(a),
            final(reputation).access_control == old(reputation).access_control,
            match r {
                Ok(transfers) => {
                    let offer = old(self).job_offers@[job_offer_id as int];
                    let ids = old(self).ids_of(job_offer_id as int);
                    &&& final(self).wf()
                    &&& job_offer_id < old(self).job_offers@.len()
                    &&& caller == offer.job_poster
                    &&& offer.status == JobOfferStatus::Created
                    &&& final(self).job_offers@ == old(self).job_offers@.update(
                        job_offer_id as int,
                        JobOffer { status: JobOfferStatus::Cancelled, ..offer },
                    )
                    &&& forall|b: int| 0 <= b < old(self).bids@.len()
                        ==> final(self).bids@[b]
                            == if (#[trigger] old(self).bids@[b]).job_offer_id
                                == job_offer_id
                                && old(self).bids@[b].status == BidStatus::Created {
                                cancelled_bid(old(self).bids@[b])
                            } else {
                                old(self).bids@[b]
                            }
                    &&& transfers@ == open_bid_refunds(old(self).bids@, ids, NO_BID).push(
                        Transfer {
                            to: offer.job_poster,
                            amount: offer.dos_fee,
                            reason: TransferReason::DOSFeeReturn,
                        },
                    )
                    &&& forall|a: int| final(reputation).locked(a)
                        == old(reputation).locked(a) - crate::stakes::bids_staked_of(
                            open_bid_unstakes(old(self).bids@, ids, NO_BID),
                            a,
                        )
                },
                Err(e) => {
                    let offer = old(self).job_offers@[job_offer_id as int];
                    let ids = old(self).ids_of(job_offer_id as int);
                    &&& ((e == Error::JobOfferNotFound
                        && job_offer_id >= old(self).job_offers@.len())
                        || (e == Error::CannotCancelNotOwnedJobOffer
                            && caller != offer.job_poster)
                        || (e == Error::JobOfferNotCancellable
                            && offer.status != JobOfferStatus::Created)
                        || (e == Error::ZeroStake && exists|a: int|
                            crate::stakes::bids_staked_of(
                                open_bid_unstakes(old(self).bids@, ids, NO_BID),
                                a,
                            ) > old(reputation).locked(a))
                        || (e == Error::NotWhitelisted
                            && !old(reputation).access_control.whitelist.contains_spec(
                            old(self).self_address,
                        )))
                    &&& forall|a: int| final(reputation).locked(a)
                        <= old(reputation).locked(a)
                },
            },
    {
        let mut offer = match self.get_job_offer_or_revert(&job_offer_id) {
            Ok(offer) => offer,
            Err(e) => {
                return Err(e);
            }
        };
        let cancelled = offer.cancel(caller);
        if let Err(e) = cancelled {
            return Err(e);
        }
        proof {
            assert(self.offer_wf(job_offer_id as int));
        }
        let reversed = self.reverse_open_bids(reputation, job_offer_id, NO_BID, false);
        let mut transfers = match reversed {
            Ok(transfers) => transfers,
            Err(e) => {
                return Err(e);
            }
        };
        let dos_refund = Transfer {
            to: offer.job_poster,
            amount: offer.dos_fee,
            reason: TransferReason::DOSFeeReturn,
        };
        transfers.push(dos_refund);
        self.job_offers.set(job_offer_id as usize, offer);
        proof {
            let o = job_offer_id as int;
            assert forall|b: int| 0 <= b < self.bids@.len()
                implies (#[trigger] self.bids@[b]).bid_id == b as int
                    && self.bids@[b].wf()
                    && self.bids@[b].job_offer_id < self.job_offers@.len() by {
                if old(self).bids@[b].job_offer_id == job_offer_id {
                } else {
                    assert(self.bids@[b] == old(self).bids@[b]);
                }
            }
            assert forall|u: int| 0 <= u < self.job_offers@.len()
                implies self.offer_wf(u) by {
                assert(old(self).offer_wf(u));
                assert forall|k: int| 0 <= k < self.ids_of(u).len()
                    implies (#[trigger] self.ids_of(u)[k]) < self.bids@.len()
                        && self.bids@[self.ids_of(u)[k] as int].job_offer_id == u by {
                    assert(old(self).ids_of(u)[k] < old(self).bids@.len());
                }
            }
            assert forall|b: int| 0 <= b < self.bids@.len() implies self.ids_of(
                (#[trigger] self.bids@[b]).job_offer_id as int,
            ).contains(b as BidId) by {
                assert(old(self).ids_of(old(self).bids@[b].job_offer_id as int).contains(
                    b as BidId,
                ));
                assert(self.bids@[b].job_offer_id == old(self).bids@[b].job_offer_id);
            }
        }
        Ok(transfers)
    }

    /// Cancels one bid by decree of a whitelisted caller: the bid is
    /// withdrawn and its reputation stake released. Only bids on
    /// still-open offers can be slashed.
    pub fn slash_bid(
        &mut self,
        reputation: &mut ReputationContract,
        caller: Address,
        bid_id: BidId,
    ) -> (r: Result<(), Error>)
        requires
            old(self).wf(),
            old(reputation).wf(),
        ensures
            final(reputation).wf(),
            final(self).self_address == old(self).self_address,
            final(self).access_control == old(self).access_control,
            final(self).job_offers == old(self).job_offers,
            final(self).offer_bids == old(self).offer_bids,
            final(self).jobs == old(self).jobs,
            forall|a: int| final(reputation).bal(a) == old(reputation).bal(a),
            match r {
                Ok(()) => {
                    let bid = old(self).bids@[bid_id as int];
                    &&& final(self).wf()
                    &&& bid_id < old(self).bids@.len()
                    &&& old(self).access_control.whitelist.contains_spec(caller)
                    &&& old(self).job_offers@[bid.job_offer_id as int].status
                        == JobOfferStatus::Created
                    &&& final(self).bids@ == old(self).bids@.update(
                        bid_id as int,
                        cancelled_bid(bid),
                    )
                    &&& final(reputation).locked(bid.worker.0 as int)
                        == old(reputation).locked(bid.worker.0 as int)
                            - bid.reputation_stake
                    &&& forall|a: int| a != bid.worker.0 as int
                        ==> final(reputation).locked(a) == old(reputation).locked(a)
                },
                Err(e) => {
                    let bid = old(self).bids@[bid_id as int];
                    let offer = old(self).job_offers@[bid.job_offer_id as int];
                    &&& (!old(self).access_control.whitelist.contains_spec(caller)
                        ==> e == Error::NotWhitelisted)
                    &&& ((e == Error::NotWhitelisted
                        && (!old(self).access_control.whitelist.contains_spec(caller)
                            || !old(reputation).access_control.whitelist.contains_spec(
                            old(self).self_address,
                        )))
                        || (e == Error::BidNotFound && bid_id >= old(self).bids@.len())
                        || (e == Error::CannotCancelBidOnCompletedJobOffer
                            && offer.status != JobOfferStatus::Created)
                        || (e == Error::ZeroStake
                            && bid.reputation_stake
                                > old(reputation).locked(bid.worker.0 as int)))
                },
            },
    {
        let allowed = self.access_control.ensure_whitelisted(caller);
        if let Err(e) = allowed {
            return Err(e);
        }
        let mut bid = match self.get_bid_or_revert(&bid_id) {
            Ok(bid) => bid,
            Err(e) => {
                return Err(e);
            }
        };
        let offer = match self.get_job_offer_or_revert(&bid.job_offer_id) {
            Ok(offer) => offer,
            Err(e) => {
                return Err(e);
            }
        };
        if offer.status != JobOfferStatus::Created {
            return Err(Error::CannotCancelBidOnCompletedJobOffer);
        }
        proof {
            assert(self.offer_wf(bid.job_offer_id as int));
        }
        let caller_contract = self.self_address;
        let released = reputation.unstake_bid(caller_contract, bid.shortened());
        if let Err(e) = released {
            return Err(e);
        }
        bid.cancel_without_validation();
        self.store_bid(bid);
        Ok(())
    }
}


/// Once a job offer is in progress, exactly one of its bids is picked:
/// there is a picked bid, any two picked positions coincide, and every
/// other bid is rejected or withdrawn.
pub proof fn lemma_exactly_one_picked_bid(engine: BidEngine, o: int)
    requires
        engine.wf(),
        0 <= o < engine.job_offers@.len(),
        engine.job_offers@[o].status == JobOfferStatus::InProgress
            || engine.job_offers@[o].status == JobOfferStatus::Completed,
    ensures
        exists|k: int| 0 <= k < engine.ids_of(o).len()
            && engine.bids@[(#[trigger] engine.ids_of(o)[k]) as int].status
                == BidStatus::Picked,
        forall|k: int, l: int| 0 <= k < engine.ids_of(o).len()
            && 0 <= l < engine.ids_of(o).len()
            && engine.bids@[(#[trigger] engine.ids_of(o)[k]) as int].status
                == BidStatus::Picked
            && engine.bids@[(#[trigger] engine.ids_of(o)[l]) as int].status
                == BidStatus::Picked ==> k == l,
        forall|k: int| 0 <= k < engine.ids_of(o).len()
            ==> engine.bids@[(#[trigger] engine.ids_of(o)[k]) as int].status
                != BidStatus::Created,
{
    assert(engine.offer_wf(o));
}

impl BidEngine {
    /// Records the worker's proof for a job and hands back the job as
    /// it now stands; the caller opens the voting round over it.
    pub fn submit_job_proof(
        &mut self,
        caller: Address,
        job_id: JobId,
        proof: crate::types::DocumentHash,
    ) -> (r: Result<Job, Error>)
        requires
            old(self).wf(),
        ensures
            final(self).wf(),
            final(self).self_address == old(self).self_address,
            final(self).access_control == old(self).access_control,
            final(self).job_offers == old(self).job_offers,
            final(self).offer_bids == old(self).offer_bids,
            final(self).bids == old(self).bids,
            match r {
                Ok(job) => {
                    let pre = old(self).jobs@[job_id as int];
                    &&& job_id < old(self).jobs@.len()
                    &&& caller == pre.worker
                    &&& pre.status == crate::job::JobStatus::Created
                    &&& job == (Job {
                        status: crate::job::JobStatus::Submitted,
                        proof: Some(proof),
                        ..pre
                    })
                    &&& final(self).jobs@ == old(self).jobs@.update(job_id as int, job)
                },
                Err(e) => {
                    let pre = old(self).jobs@[job_id as int];
                    &&& *final(self) == *old(self)
                    &&& ((e == Error::JobNotFound && job_id >= old(self).jobs@.len())
                        || (e == Error::JobAlreadySubmitted
                            && pre.status != crate::job::JobStatus::Created)
                        || (e == Error::OnlyWorkerCanSubmitProof
                            && caller != pre.worker))
                },
            },
    {
        if (job_id as usize) >= self.jobs.len() {
            return Err(Error::JobNotFound);
        }
        let mut job = self.jobs[job_id as usize];
        let submitted = job.submit_proof(caller, proof);
        if let Err(e) = submitted {
            return Err(e);
        }
        self.jobs.set(job_id as usize, job);
        proof {
            assert forall|o: int| 0 <= o < self.job_offers@.len()
                implies self.offer_wf(o) by {
                assert(old(self).offer_wf(o));
            }
            assert forall|j: int| 0 <= j < self.jobs@.len()
                implies (#[trigger] self.jobs@[j]).job_id == j && self.jobs@[j].wf() by {
                assert(old(self).jobs@[j].job_id == j);
            }
        }
        Ok(job)
    }

    /// Takes over a defaulted job during the grace period: one extra
    /// timeframe after the missed deadline, any KYC-verified account
    /// may replace the worker. The old worker's reputation stake is
    /// forfeited (released and burned); their native-currency stake is
    /// reported back for redistribution. The new worker's stake is
    /// locked and the proof recorded.
    pub fn submit_job_proof_during_grace_period(
        &mut self,
        reputation: &mut ReputationContract,
        caller: Address,
        caller_kyced: bool,
        caller_is_va: bool,
        block_time: BlockTime,
        job_id: JobId,
        proof: crate::types::DocumentHash,
        reputation_stake: Balance,
        onboard: bool,
        cspr_stake: Option<Balance>,
    ) -> (r: Result<(Job, Balance), Error>)
        requires
            old(self).wf(),
            old(reputation).wf(),
        ensures
            final(reputation).wf(),
            final(self).self_address == old(self).self_address,
            final(self).access_control == old(self).access_control,
            final(self).job_offers == old(self).job_offers,
            final(self).offer_bids == old(self).offer_bids,
            final(self).bids == old(self).bids,
            match r {
                Ok((job, forfeited_cspr)) => {
                    let pre = old(self).jobs@[job_id as int];
                    let timeframe = old(self).bids@[pre.bid_id as int].proposed_timeframe;
                    &&& final(self).wf()
                    &&& job_id < old(self).jobs@.len()
                    &&& caller_kyced
                    &&& pre.status == crate::job::JobStatus::Created
                    &&& pre.in_grace_period_spec(block_time, timeframe)
                    &&& forfeited_cspr == pre.external_worker_cspr_stake
                    &&& job == (Job {
                        status: crate::job::JobStatus::Submitted,
                        proof: Some(proof),
                        worker: caller,
                        worker_is_va: caller_is_va,
                        onboard,
                        stake: if cspr_stake is None { reputation_stake } else { 0 },
                        external_worker_cspr_stake: match cspr_stake {
                            Some(c) => c,
                            None => 0,
                        },
                        ..pre
                    })
                    &&& final(self).jobs@ == old(self).jobs@.update(job_id as int, job)
                    &&& final(reputation).reputation_storage.total_supply
                        <= old(reputation).reputation_storage.total_supply
                },
                Err(e) => {
                    let pre = old(self).jobs@[job_id as int];
                    let timeframe = old(self).bids@[pre.bid_id as int].proposed_timeframe;
                    &&& ((e == Error::JobNotFound && job_id >= old(self).jobs@.len())
                        || (e == Error::NotKyced && !caller_kyced)
                        || (e == Error::JobAlreadySubmitted
                            && pre.status != crate::job::JobStatus::Created)
                        || (e == Error::BidNotFound
                            && pre.bid_id >= old(self).bids@.len())
                        || (e == Error::GracePeriodNotStarted
                            && !pre.in_grace_period_spec(block_time, timeframe))
                        || (e == Error::ZeroStake
                            && ((pre.stake > 0
                                && pre.stake
                                    > old(reputation).locked(pre.worker.0 as int))
                                || (cspr_stake is None && reputation_stake == 0)))
                        || (e == Error::NotWhitelisted
                            && !old(reputation).access_control.whitelist.contains_spec(
                            old(self).self_address,
                        ))
                        || (e == Error::InsufficientBalance
                            && ((pre.stake > 0
                                && pre.stake > old(reputation).bal(pre.worker.0 as int))
                                || (cspr_stake is None
                                    && old(reputation).locked(caller.0 as int)
                                        + reputation_stake
                                        > old(reputation).bal(caller.0 as int)))))
                },
            },
    {
        if (job_id as usize) >= self.jobs.len() {
            return Err(Error::JobNotFound);
        }
        if !caller_kyced {
            return Err(Error::NotKyced);
        }
        let mut job = self.jobs[job_id as usize];
        if job.status != crate::job::JobStatus::Created {
            return Err(Error::JobAlreadySubmitted);
        }
        if (job.bid_id as usize) >= self.bids.len() {
            return Err(Error::BidNotFound);
        }
        let old_bid = self.bids[job.bid_id as usize];
        let timeframe = old_bid.proposed_timeframe;
        if !(job.finish_time <= block_time && block_time < job.finish_time + timeframe) {
            return Err(Error::GracePeriodNotStarted);
        }

        let caller_contract = self.self_address;
        // Forfeit the old worker's stake: release and burn a
        // reputation stake; report a native-currency stake back for
        // redistribution to the voting associates.
        if job.stake > 0 {
            let released = reputation.unstake_bid(
                caller_contract,
                ShortenedBid {
                    bid_id: job.bid_id,
                    reputation_stake: job.stake,
                    worker: job.worker,
                },
            );
            if let Err(e) = released {
                return Err(e);
            }
            let burned = reputation.burn(caller_contract, job.worker, job.stake);
            if let Err(e) = burned {
                return Err(e);
            }
        }
        let forfeited_cspr = job.external_worker_cspr_stake;

        // Lock the new worker's stake.
        let new_stake: Balance = match cspr_stake {
            Some(_) => 0,
            None => {
                let staked = reputation.stake_bid(
                    caller_contract,
                    ShortenedBid {
                        bid_id: job.bid_id,
                        reputation_stake,
                        worker: caller,
                    },
                );
                if let Err(e) = staked {
                    return Err(e);
                }
                reputation_stake
            }
        };

        job.worker = caller;
        job.worker_is_va = caller_is_va;
        job.onboard = onboard;
        job.stake = new_stake;
        job.external_worker_cspr_stake = match cspr_stake {
            Some(c) => c,
            None => 0,
        };
        job.status = crate::job::JobStatus::Submitted;
        job.proof = Some(proof);
        self.jobs.set(job_id as usize, job);
        proof {
            assert forall|o: int| 0 <= o < self.job_offers@.len()
                implies self.offer_wf(o) by {
                assert(old(self).offer_wf(o));
            }
            assert forall|j: int| 0 <= j < self.jobs@.len()
                implies (#[trigger] self.jobs@[j]).job_id == j && self.jobs@[j].wf() by {
                assert(old(self).jobs@[j].job_id == j);
            }
        }
        Ok((job, forfeited_cspr))
    }

    /// Links a job to the voting round its proof spawned.
    pub fn set_job_voting_id(&mut self, job_id: JobId, voting_id: crate::types::VotingId) -> (r:
        Result<(), Error>)
        requires
            old(self).wf(),
        ensures
            final(self).wf(),
            final(self).self_address == old(self).self_address,
            final(self).access_control == old(self).access_control,
            final(self).job_offers == old(self).job_offers,
            final(self).offer_bids == old(self).offer_bids,
            final(self).bids == old(self).bids,
            match r {
                Ok(()) => job_id < old(self).jobs@.len()
                    && final(self).jobs@ == old(self).jobs@.update(
                        job_id as int,
                        Job { voting_id: Some(voting_id), ..old(self).jobs@[job_id as int] },
                    ),
                Err(e) => e == Error::JobNotFound && *final(self) == *old(self)
                    && job_id >= old(self).jobs@.len(),
            },
    {
        if (job_id as usize) >= self.jobs.len() {
            return Err(Error::JobNotFound);
        }
        let mut job = self.jobs[job_id as usize];
        job.set_voting_id(voting_id);
        self.jobs.set(job_id as usize, job);
        proof {
            assert forall|o: int| 0 <= o < self.job_offers@.len()
                implies self.offer_wf(o) by {
                assert(old(self).offer_wf(o));
            }
            assert forall|j: int| 0 <= j < self.jobs@.len()
                implies (#[trigger] self.jobs@[j]).job_id == j && self.jobs@[j].wf() by {
                assert(old(self).jobs@[j].job_id == j);
            }
        }
        Ok(())
    }
}


impl BidEngine {
    /// Cancels every still-open job offer of `bidder` by decree of a
    /// whitelisted caller: each such offer is withdrawn exactly as a
    /// poster's own cancellation would, reversing its bids and
    /// refunding its deposit.
    ///
    /// Offers with a picked bid are already escrowed; their voting
    /// round settles them, so they are left alone.
    pub fn slash_all_active_job_offers(
        &mut self,
        reputation: &mut ReputationContract,
        caller: Address,
        bidder: Address,
    ) -> (r: Result<Vec<Transfer>, Error>)
        requires
            old(self).wf(),
            old(reputation).wf(),
        ensures
            final(reputation).wf(),
            final(self).self_address == old(self).self_address,
            final(self).access_control == old(self).access_control,
            final(self).jobs == old(self).jobs,
            final(self).offer_bids == old(self).offer_bids,
            forall|a: int| final(reputation).bal(a) == old(reputation).bal(a),
            match r {
                Ok(transfers) => {
                    &&& final(self).wf()
                    &&& old(self).access_control.whitelist.contains_spec(caller)
                    &&& final(self).job_offers@.len() == old(self).job_offers@.len()
                    &&& forall|o: int| 0 <= o < old(self).job_offers@.len()
                        ==> final(self).job_offers@[o]
                            == if (#[trigger] old(self).job_offers@[o]).job_poster
                                == bidder
                                && old(self).job_offers@[o].status
                                    == JobOfferStatus::Created {
                                JobOffer {
                                    status: JobOfferStatus::Cancelled,
                                    ..old(self).job_offers@[o]
                                }
                            } else {
                                old(self).job_offers@[o]
                            }
                    &&& forall|a: int| final(reputation).locked(a)
                        == old(reputation).locked(a) - old(self).slashable_staked_of(
                            bidder,
                            a,
                            old(self).job_offers@.len() as int,
                        )
                },
                Err(e) => {
                    &&& (!old(self).access_control.whitelist.contains_spec(caller)
                        ==> e == Error::NotWhitelisted)
                    &&& ((e == Error::NotWhitelisted
                        && (!old(self).access_control.whitelist.contains_spec(caller)
                            || !old(reputation).access_control.whitelist.contains_spec(
                            old(self).self_address,
                        )))
                        || (e == Error::ZeroStake && exists|a: int|
                            old(self).slashable_staked_of(
                                bidder,
                                a,
                                old(self).job_offers@.len() as int,
                            ) > old(reputation).locked(a)))
                    &&& forall|a: int| final(reputation).locked(a)
                        <= old(reputation).locked(a)
                },
            },
    {
        let allowed = self.access_control.ensure_whitelisted(caller);
        if let Err(e) = allowed {
            return Err(e);
        }
        let mut transfers: Vec<Transfer> = Vec::new();
        let count = self.job_offers.len();
        let mut o: usize = 0;
        while o < count
            invariant
                self.wf(),
                reputation.wf(),
                old(self).wf(),
                old(self).access_control.whitelist.contains_spec(caller),
                count == old(self).job_offers@.len(),
                o <= count,
                self.self_address == old(self).self_address,
                self.access_control == old(self).access_control,
                self.jobs == old(self).jobs,
                self.offer_bids == old(self).offer_bids,
                self.job_offers@.len() == old(self).job_offers@.len(),
                reputation.access_control == old(reputation).access_control,
                forall|a: int| reputation.bal(a) == old(reputation).bal(a),
                forall|a: int| reputation.locked(a) <= old(reputation).locked(a),
                forall|a: int| reputation.locked(a)
                    == old(reputation).locked(a) - old(self).slashable_staked_of(
                        bidder,
                        a,
                        o as int,
                    ),
                self.bids@.len() == old(self).bids@.len(),
                self.offer_bids == old(self).offer_bids,
                forall|b: int| 0 <= b < old(self).bids@.len()
                    && ((#[trigger] old(self).bids@[b]).job_offer_id >= o
                        || !(old(self).job_offers@[
                            old(self).bids@[b].job_offer_id as int
                        ].job_poster == bidder
                            && old(self).job_offers@[
                                old(self).bids@[b].job_offer_id as int
                            ].status == JobOfferStatus::Created))
                    ==> self.bids@[b] == old(self).bids@[b],
                forall|u: int| 0 <= u < count
                    ==> self.job_offers@[u]
                        == if u < o
                            && (#[trigger] old(self).job_offers@[u]).job_poster == bidder
                            && old(self).job_offers@[u].status == JobOfferStatus::Created {
                            JobOffer {
                                status: JobOfferStatus::Cancelled,
                                ..old(self).job_offers@[u]
                            }
                        } else {
                            old(self).job_offers@[u]
                        },
            decreases count - o,
        {
            let offer = self.job_offers[o];
            if offer.job_poster == bidder && offer.status == JobOfferStatus::Created {
                let ghost mid_rep = *reputation;
                let ghost mid_self = *self;
                let cancelled = self.cancel_job_offer(reputation, bidder, o as u32);
                proof {
                    // The offer's bids were untouched by earlier
                    // iterations, so its unstake orders match the
                    // orders over the original store.
                    assert(old(self).offer_wf(o as int));
                    assert forall|k: int| 0 <= k < old(self).ids_of(o as int).len()
                        implies (#[trigger] old(self).ids_of(o as int)[k])
                            < mid_self.bids@.len()
                            && old(self).ids_of(o as int)[k] < old(self).bids@.len()
                            && mid_self.bids@[old(self).ids_of(o as int)[k] as int]
                                == old(self).bids@[
                                old(self).ids_of(o as int)[k] as int
                            ] by {
                        let b = old(self).ids_of(o as int)[k] as int;
                        assert(old(self).bids@[b].job_offer_id == o);
                    }
                    lemma_open_bid_unstakes_same(
                        mid_self.bids@,
                        old(self).bids@,
                        old(self).ids_of(o as int),
                        NO_BID,
                    );
                    if cancelled is Ok {
                        assert forall|a: int| reputation.locked(a)
                            <= mid_rep.locked(a) by {
                            crate::stakes::lemma_bids_staked_nonneg(
                                open_bid_unstakes(
                                    mid_self.bids@,
                                    mid_self.ids_of(o as int),
                                    NO_BID,
                                ),
                                a,
                            );
                        }
                    } else {
                        assert forall|a: int|
                            old(self).slashable_staked_of(bidder, a, o as int)
                                >= 0 by {
                            old(self).lemma_slashable_monotone(bidder, a, 0, o as int);
                        }
                        let e = cancelled->Err_0;
                        if e == Error::ZeroStake {
                            let a = choose|a: int|
                                crate::stakes::bids_staked_of(
                                    open_bid_unstakes(
                                        mid_self.bids@,
                                        mid_self.ids_of(o as int),
                                        NO_BID,
                                    ),
                                    a,
                                ) > mid_rep.locked(a);
                            assert(mid_self.ids_of(o as int)
                                == old(self).ids_of(o as int));
                            assert(crate::stakes::bids_staked_of(
                                open_bid_unstakes(
                                    old(self).bids@,
                                    old(self).ids_of(o as int),
                                    NO_BID,
                                ),
                                a,
                            ) > mid_rep.locked(a));
                            assert(mid_rep.locked(a) == old(reputation).locked(a)
                                - old(self).slashable_staked_of(bidder, a, o as int));
                            assert(old(self).slashable_staked_of(bidder, a, o as int + 1)
                                > old(reputation).locked(a));
                            old(self).lemma_slashable_monotone(
                                bidder,
                                a,
                                o as int + 1,
                                old(self).job_offers@.len() as int,
                            );
                        }
                    }
                }
                match cancelled {
                    Ok(refunds) => {
                        proof {
                            assert forall|a: int| reputation.locked(a)
                                == old(reputation).locked(a)
                                    - old(self).slashable_staked_of(
                                    bidder,
                                    a,
                                    o as int + 1,
                                ) by {
                                assert(mid_rep.locked(a) == old(reputation).locked(a)
                                    - old(self).slashable_staked_of(bidder, a, o as int));
                            }
                        }
                        let mut k: usize = 0;
                        while k < refunds.len()
                            invariant
                                k <= refunds@.len(),
                            decreases refunds@.len() - k,
                        {
                            transfers.push(refunds[k]);
                            k += 1;
                        }
                    }
                    Err(e) => {
                        return Err(e);
                    }
                }
            } else {
                proof {
                    assert forall|a: int| reputation.locked(a)
                        == old(reputation).locked(a)
                            - old(self).slashable_staked_of(bidder, a, o as int + 1) by {
                        assert(reputation.locked(a) == old(reputation).locked(a)
                            - old(self).slashable_staked_of(bidder, a, o as int));
                    }
                }
            }
            o += 1;
        }
        Ok(transfers)
    }
}


impl BidEngine {
    /// Closes a job once its voting round resolved: the job completes
    /// or is reversed, and a completed job's offer completes with it.
    pub fn close_job(&mut self, job_id: JobId, completed: bool) -> (r: Result<(), Error>)
        requires
            old(self).wf(),
        ensures
            final(self).wf(),
            final(self).self_address == old(self).self_address,
            final(self).access_control == old(self).access_control,
            final(self).bids == old(self).bids,
            final(self).offer_bids == old(self).offer_bids,
            match r {
                Ok(()) => {
                    let job = old(self).jobs@[job_id as int];
                    &&& job_id < old(self).jobs@.len()
                    &&& final(self).jobs@ == old(self).jobs@.update(
                        job_id as int,
                        Job {
                            status: if completed {
                                crate::job::JobStatus::Completed
                            } else {
                                crate::job::JobStatus::Cancelled
                            },
                            ..job
                        },
                    )
                    &&& (completed && job.job_offer_id < old(self).job_offers@.len()
                        && old(self).job_offers@[job.job_offer_id as int].status
                            == JobOfferStatus::InProgress
                        ==> final(self).job_offers@[job.job_offer_id as int].status
                            == JobOfferStatus::Completed)
                },
                Err(e) => {
                    &&& e == Error::JobNotFound
                    &&& *final(self) == *old(self)
                    &&& job_id >= old(self).jobs@.len()
                },
            },
    {
        if (job_id as usize) >= self.jobs.len() {
            return Err(Error::JobNotFound);
        }
        let mut job = self.jobs[job_id as usize];
        if completed {
            job.status = crate::job::JobStatus::Completed;
        } else {
            job.status = crate::job::JobStatus::Cancelled;
        }
        self.jobs.set(job_id as usize, job);
        if completed && (job.job_offer_id as usize) < self.job_offers.len() {
            let offer = self.job_offers[job.job_offer_id as usize];
            if offer.status == JobOfferStatus::InProgress {
                self.job_offers[job.job_offer_id as usize].status
                    = JobOfferStatus::Completed;
            }
        }
        proof {
            assert forall|o: int| 0 <= o < self.job_offers@.len()
                implies self.offer_wf(o) by {
                assert(old(self).offer_wf(o));
            }
            assert forall|j: int| 0 <= j < self.jobs@.len()
                implies (#[trigger] self.jobs@[j]).job_id == j && self.jobs@[j].wf() by {
                assert(old(self).jobs@[j].job_id == j);
            }
            assert forall|b: int| 0 <= b < self.bids@.len() implies self.ids_of(
                (#[trigger] self.bids@[b]).job_offer_id as int,
            ).contains(b as BidId) by {
                assert(old(self).ids_of(old(self).bids@[b].job_offer_id as int).contains(
                    b as BidId,
                ));
            }
        }
        Ok(())
    }
}


} // verus!
