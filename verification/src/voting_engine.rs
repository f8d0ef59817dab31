//! The voting engine: keeps every voting round with its ballots,
//! casts and cancels ballots, and settles finished rounds.
//!
//! Its central invariant ties the state machine's tallies to the
//! ballots: each tally is exactly the sum of the matching ballots'
//! stakes, so no stake is ever double-counted.

use vstd::prelude::*;

verus! {

use crate::ballot::Ballot;
use crate::ballot::Choice;
use crate::ballot::ShortenedBallot;
use crate::configuration::Configuration;
use crate::configuration::TIME_BOUND;
use crate::errors::Error;
use crate::reputation::ReputationContract;
use crate::types::Address;
use crate::types::Balance;
use crate::types::BlockTime;
use crate::types::lemma_pays_absent;
use crate::types::pays_of;
use crate::types::sum_amounts;
use crate::types::VotingId;
use crate::voting_events::BallotCast;
use crate::voting_events::VotingCreatedInfo;
use crate::voting_state_machine::stats_add_bound;
use crate::voting_state_machine::stats_add_unbound;
use crate::voting_state_machine::stats_add_vote;
use crate::voting_state_machine::Stats;
use crate::voting_state_machine::VotingState;
use crate::voting_state_machine::VotingResult;
use crate::voting_state_machine::VotingStateMachine;
use crate::voting_state_machine::VotingSummary;
use crate::voting_state_machine::VotingType;
use crate::voting_events::VotingEnded;

/// Sum of the stakes of the ballots that count bound for `choice`.
pub open spec fn tally_bound(bs: Seq<Ballot>, choice: Choice) -> int
    decreases bs.len(),
{
    if bs.len() == 0 {
        0
    } else {
        tally_bound(bs.drop_last(), choice)
            + if bs.last().counts_bound(choice) {
                bs.last().stake as int
            } else {
                0
            }
    }
}

/// Sum of the stakes of the ballots that count unbound for `choice`.
pub open spec fn tally_unbound(bs: Seq<Ballot>, choice: Choice) -> int
    decreases bs.len(),
{
    if bs.len() == 0 {
        0
    } else {
        tally_unbound(bs.drop_last(), choice)
            + if bs.last().counts_unbound(choice) {
                bs.last().stake as int
            } else {
                0
            }
    }
}

/// Number of non-canceled ballots that selected `choice`.
pub open spec fn count_votes(bs: Seq<Ballot>, choice: Choice) -> int
    decreases bs.len(),
{
    if bs.len() == 0 {
        0
    } else {
        count_votes(bs.drop_last(), choice)
            + if !bs.last().canceled && bs.last().choice == choice {
                1int
            } else {
                0
            }
    }
}

/// The tallies a phase's stats block must hold for its ballots.
pub open spec fn stats_match(s: Stats, bs: Seq<Ballot>) -> bool {
    &&& s.stake_in_favor == tally_bound(bs, Choice::InFavor)
    &&& s.stake_against == tally_bound(bs, Choice::Against)
    &&& s.unbound_stake_in_favor == tally_unbound(bs, Choice::InFavor)
    &&& s.unbound_stake_against == tally_unbound(bs, Choice::Against)
    &&& s.votes_in_favor == count_votes(bs, Choice::InFavor)
    &&& s.votes_against == count_votes(bs, Choice::Against)
}

/// Appending a ballot adds its contribution to each tally.
pub proof fn lemma_tallies_push(bs: Seq<Ballot>, b: Ballot, choice: Choice)
    ensures
        tally_bound(bs.push(b), choice) == tally_bound(bs, choice)
            + if b.counts_bound(choice) { b.stake as int } else { 0 },
        tally_unbound(bs.push(b), choice) == tally_unbound(bs, choice)
            + if b.counts_unbound(choice) { b.stake as int } else { 0 },
        count_votes(bs.push(b), choice) == count_votes(bs, choice)
            + if !b.canceled && b.choice == choice { 1int } else { 0 },
{
    assert(bs.push(b).drop_last() =~= bs);
}

/// Replacing one ballot shifts each tally by the difference of the two
/// ballots' contributions.
pub proof fn lemma_tallies_update(bs: Seq<Ballot>, i: int, b: Ballot, choice: Choice)
    requires
        0 <= i < bs.len(),
    ensures
        tally_bound(bs.update(i, b), choice) == tally_bound(bs, choice)
            - (if bs[i].counts_bound(choice) { bs[i].stake as int } else { 0 })
            + (if b.counts_bound(choice) { b.stake as int } else { 0 }),
        tally_unbound(bs.update(i, b), choice) == tally_unbound(bs, choice)
            - (if bs[i].counts_unbound(choice) { bs[i].stake as int } else { 0 })
            + (if b.counts_unbound(choice) { b.stake as int } else { 0 }),
        count_votes(bs.update(i, b), choice) == count_votes(bs, choice)
            - (if !bs[i].canceled && bs[i].choice == choice { 1int } else { 0 })
            + (if !b.canceled && b.choice == choice { 1int } else { 0 }),
    decreases bs.len(),
{
    if i == bs.len() - 1 {
        assert(bs.update(i, b).drop_last() =~= bs.drop_last());
    } else {
        assert(bs.update(i, b).drop_last() =~= bs.drop_last().update(i, b));
        assert(bs.drop_last()[i] == bs[i]);
        lemma_tallies_update(bs.drop_last(), i, b, choice);
    }
}

/// Tallies and vote counts are never negative.
pub proof fn lemma_tallies_nonneg(bs: Seq<Ballot>, choice: Choice)
    ensures
        tally_bound(bs, choice) >= 0,
        tally_unbound(bs, choice) >= 0,
        count_votes(bs, choice) >= 0,
        count_votes(bs, choice) <= bs.len(),
    decreases bs.len(),
{
    if bs.len() > 0 {
        lemma_tallies_nonneg(bs.drop_last(), choice);
    }
}

/// A ballot that counts bound contributes no more than the whole tally.
pub proof fn lemma_tally_bound_at(bs: Seq<Ballot>, i: int, choice: Choice)
    requires
        0 <= i < bs.len(),
        bs[i].counts_bound(choice),
    ensures
        bs[i].stake <= tally_bound(bs, choice),
    decreases bs.len(),
{
    lemma_tallies_nonneg(bs.drop_last(), choice);
    if i == bs.len() - 1 {
    } else {
        assert(bs.drop_last()[i] == bs[i]);
        lemma_tally_bound_at(bs.drop_last(), i, choice);
    }
}

/// A ballot that counts unbound contributes no more than the whole
/// unbound tally.
pub proof fn lemma_tally_unbound_at(bs: Seq<Ballot>, i: int, choice: Choice)
    requires
        0 <= i < bs.len(),
        bs[i].counts_unbound(choice),
    ensures
        bs[i].stake <= tally_unbound(bs, choice),
    decreases bs.len(),
{
    lemma_tallies_nonneg(bs.drop_last(), choice);
    if i == bs.len() - 1 {
    } else {
        assert(bs.drop_last()[i] == bs[i]);
        lemma_tally_unbound_at(bs.drop_last(), i, choice);
    }
}

/// Structural soundness of one phase's ballot list: every ballot
/// belongs to the round and phase, voters are unique, and the list
/// leaves room in the `u32`-indexed voter list.
pub open spec fn ballots_ok(bs: Seq<Ballot>, voting_id: VotingId, vt: VotingType) -> bool {
    &&& forall|i: int| 0 <= i < bs.len()
        ==> (#[trigger] bs[i]).voting_id == voting_id && bs[i].voting_type == vt
    &&& forall|i: int, j: int| 0 <= i < j < bs.len()
        ==> (#[trigger] bs[i]).voter != (#[trigger] bs[j]).voter
    &&& bs.len() < 0xFFFF_FFFF
}


/// The exact conditions under which casting a ballot fails with `e`.
pub open spec fn vote_failure(
    pre_e: VotingEngine,
    pre_r: ReputationContract,
    voter: Address,
    voting_id: VotingId,
    voting_type: VotingType,
    stake: Balance,
    block_time: BlockTime,
    e: Error,
) -> bool {
    let v = voting_id as int;
    let m = pre_e.votings@[v];
    let bs = pre_e.ballots_of(v, m.voting_type);
    ||| (e == Error::VotingDoesNotExist && voting_id >= pre_e.votings@.len())
    ||| (e == Error::VotingWithGivenTypeNotInProgress
        && (m.voting_type != voting_type || !m.is_in_time_spec(block_time)))
    ||| (e == Error::VoteOnCompletedVotingNotAllowed && m.completed_spec())
    ||| (e == Error::CannotVoteTwice && VotingEngine::has_ballot(bs, voter))
    ||| (e == Error::StorageFull
        && (bs.len() >= 0xFFFF_FFFE || m.total_stake_spec() + stake > u64::MAX))
    ||| (e == Error::ZeroStake && !m.is_informal_without_stake_spec() && stake == 0)
    ||| (e == Error::InsufficientBalance && !m.is_informal_without_stake_spec()
        && pre_r.locked(voter.0 as int) + stake > pre_r.bal(voter.0 as int))
    ||| (e == Error::NotWhitelisted && !m.is_informal_without_stake_spec()
        && !pre_r.access_control.whitelist.contains_spec(pre_e.self_address))
}

/// The exact conditions under which creating a round fails with `e`.
pub open spec fn create_failure(
    pre_e: VotingEngine,
    pre_r: ReputationContract,
    creator: Address,
    creator_is_va: bool,
    stake: Balance,
    configuration: Configuration,
    e: Error,
) -> bool {
    ||| (e == Error::NotOnboarded && configuration.only_va_can_create && !creator_is_va)
    ||| (e == Error::StorageFull && pre_e.votings@.len() >= 0xFFFF_FFFF)
    ||| (e == Error::ZeroStake && configuration.cast_first_vote
        && configuration.informal_stake_reputation && stake == 0)
    ||| (e == Error::InsufficientBalance && configuration.cast_first_vote
        && configuration.informal_stake_reputation
        && pre_r.locked(creator.0 as int) + stake > pre_r.bal(creator.0 as int))
    ||| (e == Error::NotWhitelisted && configuration.cast_first_vote
        && configuration.informal_stake_reputation
        && !pre_r.access_control.whitelist.contains_spec(pre_e.self_address))
}

/// The exact conditions under which finishing a phase fails with `e`.
pub open spec fn finish_failure(
    pre_e: VotingEngine,
    pre_r: ReputationContract,
    voting_id: VotingId,
    voting_type: VotingType,
    block_time: BlockTime,
    e: Error,
) -> bool {
    let v = voting_id as int;
    let m = pre_e.votings@[v];
    let bs = pre_e.ballots_of(v, voting_type);
    ||| (e == Error::VotingDoesNotExist && voting_id >= pre_e.votings@.len())
    ||| (e == Error::VotingWithGivenTypeNotInProgress && m.voting_type != voting_type)
    ||| (e == Error::FinishingCompletedVotingNotAllowed && m.completed_spec())
    ||| (e == Error::InformalVotingNotYetFinished
        && voting_type == VotingType::Informal
        && (m.state_in_time_spec(block_time) == VotingState::Created
            || m.state_in_time_spec(block_time) == VotingState::Informal))
    ||| (e == Error::FormalVotingNotYetFinished && voting_type == VotingType::Formal
        && m.state_in_time_spec(block_time) != VotingState::Finished)
    ||| (e == Error::ZeroStake && exists|a: int|
        crate::stakes::ballots_staked_of(to_unstake(bs), a) > pre_r.locked(a))
    ||| (e == Error::NotWhitelisted
        && !pre_r.access_control.whitelist.contains_spec(pre_e.self_address))
}

/// The exact conditions under which slashing a voter fails with `e`.
pub open spec fn slash_failure(
    pre_e: VotingEngine,
    pre_r: ReputationContract,
    voter: Address,
    voting_id: VotingId,
    e: Error,
) -> bool {
    let v = voting_id as int;
    ||| (e == Error::VotingDoesNotExist && voting_id >= pre_e.votings@.len())
    ||| (e == Error::ZeroStake
        && voter_active_bound_stake(pre_e.informal_of(v), voter)
            + voter_active_bound_stake(pre_e.formal_of(v), voter)
            > pre_r.locked(voter.0 as int))
    ||| (e == Error::NotWhitelisted
        && !pre_r.access_control.whitelist.contains_spec(pre_e.self_address))
}

/// Governance voting: two sequential phases, informal then formal,
/// over one `VotingStateMachine` per round.
#[derive(Clone, PartialEq, Eq, Debug)]
pub struct VotingEngine {
    /// The account of the contract embedding this engine; it is the
    /// origin recorded for every stake the engine locks.
    pub self_address: Address,
    /// One state machine per round, indexed by voting identifier.
    pub votings: Vec<VotingStateMachine>,
    /// The informal-phase ballots of each round, in cast order.
    pub informal_ballots: Vec<Vec<Ballot>>,
    /// The formal-phase ballots of each round, in cast order.
    pub formal_ballots: Vec<Vec<Ballot>>,
}

impl VotingEngine {
    /// The informal ballots of round `v`.
    pub open spec fn informal_of(self, v: int) -> Seq<Ballot> {
        self.informal_ballots@[v]@
    }

    /// The formal ballots of round `v`.
    pub open spec fn formal_of(self, v: int) -> Seq<Ballot> {
        self.formal_ballots@[v]@
    }

    /// The ballots of round `v` in phase `vt`.
    pub open spec fn ballots_of(self, v: int, vt: VotingType) -> Seq<Ballot> {
        match vt {
            VotingType::Informal => self.informal_of(v),
            VotingType::Formal => self.formal_of(v),
        }
    }

    /// Well-formedness of one round: the machine is sound, carries its
    /// own index as identifier, and both stats blocks hold exactly
    /// their ballots' tallies.
    pub open spec fn voting_wf(self, v: int) -> bool {
        &&& self.votings@[v].wf()
        &&& self.votings@[v].voting_id == v
        &&& stats_match(self.votings@[v].informal_stats, self.informal_of(v))
        &&& stats_match(self.votings@[v].formal_stats, self.formal_of(v))
        &&& ballots_ok(self.informal_of(v), v as VotingId, VotingType::Informal)
        &&& ballots_ok(self.formal_of(v), v as VotingId, VotingType::Formal)
    }

    /// Well-formedness of the whole engine.
    pub open spec fn wf(self) -> bool {
        &&& self.informal_ballots@.len() == self.votings@.len()
        &&& self.formal_ballots@.len() == self.votings@.len()
        &&& self.votings@.len() <= 0xFFFF_FFFF
        &&& forall|v: int| 0 <= v < self.votings@.len() ==> self.voting_wf(v)
    }

    /// Creates an empty engine for the contract at `self_address`.
    pub fn new(self_address: Address) -> (r: Self)
        ensures
            r.wf(),
            r.self_address == self_address,
            r.votings@.len() == 0,
    {
        VotingEngine {
            self_address,
            votings: Vec::new(),
            informal_ballots: Vec::new(),
            formal_ballots: Vec::new(),
        }
    }

    /// Whether a round with this identifier exists in the given phase:
    /// any existing round has an informal phase; the formal phase
    /// exists once the round has advanced to it.
    pub fn voting_exists(&self, voting_id: VotingId, voting_type: VotingType) -> (r: bool)
        ensures
            r == (voting_id < self.votings@.len() && match voting_type {
                VotingType::Informal => true,
                VotingType::Formal =>
                    self.votings@[voting_id as int].voting_type == VotingType::Formal,
            }),
    {
        if (voting_id as usize) >= self.votings.len() {
            return false;
        }
        match voting_type {
            VotingType::Informal => true,
            VotingType::Formal => {
                self.votings[voting_id as usize].voting_type() == VotingType::Formal
            }
        }
    }

    /// Returns the round with the given identifier.
    pub fn get_voting(&self, voting_id: VotingId) -> (r: Option<VotingStateMachine>)
        ensures
            r == if voting_id < self.votings@.len() {
                Some(self.votings@[voting_id as int])
            } else {
                Option::<VotingStateMachine>::None
            },
    {
        if (voting_id as usize) < self.votings.len() {
            Some(self.votings[voting_id as usize])
        } else {
            None
        }
    }

    /// Index of the non-canceled ballot `voter` cast in the ballots
    /// `bs`, if any.
    pub open spec fn ballot_index_of(bs: Seq<Ballot>, voter: Address) -> int {
        choose|i: int| 0 <= i < bs.len() && bs[i].voter == voter
    }

    /// Whether `voter` cast a ballot in `bs`.
    pub open spec fn has_ballot(bs: Seq<Ballot>, voter: Address) -> bool {
        exists|i: int| 0 <= i < bs.len() && (#[trigger] bs[i]).voter == voter
    }

    /// Returns the ballot `address` cast in the given round and phase.
    pub fn get_ballot(
        &self,
        voting_id: VotingId,
        voting_type: VotingType,
        address: Address,
    ) -> (r: Option<Ballot>)
        requires
            self.wf(),
        ensures
            match r {
                Some(b) => voting_id < self.votings@.len()
                    && Self::has_ballot(self.ballots_of(voting_id as int, voting_type), address)
                    && b.voter == address && b.voting_id == voting_id
                    && b.voting_type == voting_type
                    && self.ballots_of(voting_id as int, voting_type).contains(b),
                None => voting_id >= self.votings@.len()
                    || !Self::has_ballot(
                        self.ballots_of(voting_id as int, voting_type),
                        address,
                    ),
            },
    {
        if (voting_id as usize) >= self.votings.len() {
            return None;
        }
        let ballots = match voting_type {
            VotingType::Informal => &self.informal_ballots[voting_id as usize],
            VotingType::Formal => &self.formal_ballots[voting_id as usize],
        };
        let mut i: usize = 0;
        while i < ballots.len()
            invariant
                self.wf(),
                voting_id < self.votings@.len(),
                i <= ballots@.len(),
                ballots@ == self.ballots_of(voting_id as int, voting_type),
                forall|j: int| 0 <= j < i ==> (#[trigger] ballots@[j]).voter != address,
            decreases ballots@.len() - i,
        {
            let b = ballots[i];
            if b.voter == address {
                proof {
                    assert(self.voting_wf(voting_id as int));
                    assert(self.ballots_of(voting_id as int, voting_type)[i as int] == b);
                    assert(self.ballots_of(voting_id as int, voting_type)[i as int].voter
                        == address);
                }
                return Some(b);
            }
            i += 1;
        }
        None
    }

    /// Returns the account of the `at`-th voter of the given round and
    /// phase, in cast order.
    pub fn get_voter(&self, voting_id: VotingId, voting_type: VotingType, at: u32) -> (r:
        Option<Address>)
        requires
            self.wf(),
        ensures
            r == if voting_id < self.votings@.len()
                && at < self.ballots_of(voting_id as int, voting_type).len() {
                Some(self.ballots_of(voting_id as int, voting_type)[at as int].voter)
            } else {
                Option::<Address>::None
            },
    {
        if (voting_id as usize) >= self.votings.len() {
            return None;
        }
        let ballots = match voting_type {
            VotingType::Informal => &self.informal_ballots[voting_id as usize],
            VotingType::Formal => &self.formal_ballots[voting_id as usize],
        };
        if (at as usize) < ballots.len() {
            Some(ballots[at as usize].voter)
        } else {
            None
        }
    }

    /// Number of ballots cast in the given round and phase.
    pub fn voters_count(&self, voting_id: VotingId, voting_type: VotingType) -> (r: u32)
        requires
            self.wf(),
            voting_id < self.votings@.len(),
        ensures
            r == self.ballots_of(voting_id as int, voting_type).len(),
    {
        proof {
            assert(self.voting_wf(voting_id as int));
        }
        match voting_type {
            VotingType::Informal => self.informal_ballots[voting_id as usize].len() as u32,
            VotingType::Formal => self.formal_ballots[voting_id as usize].len() as u32,
        }
    }
}

impl VotingEngine {
    /// The exact effect of casting one ballot: the ballot is appended
    /// to the active phase's list, the matching tallies grow, nothing
    /// else of the engine changes, and the ledger locks the stake
    /// exactly when the ballot is bound.
    pub open spec fn cast_effect(
        pre: VotingEngine,
        post: VotingEngine,
        pre_rep: ReputationContract,
        post_rep: ReputationContract,
        voter: Address,
        voting_id: VotingId,
        choice: Choice,
        stake: Balance,
        unbound: bool,
    ) -> bool {
        let v = voting_id as int;
        let vt = pre.votings@[v].voting_type;
        let b = Ballot {
            voter,
            voting_id,
            voting_type: vt,
            choice,
            stake,
            unbound,
            canceled: false,
        };
        let w = voter.0 as int;
        &&& !Self::has_ballot(pre.ballots_of(v, vt), voter)
        &&& post.ballots_of(v, vt) =~= pre.ballots_of(v, vt).push(b)
        &&& (vt == VotingType::Informal ==> post.formal_of(v) == pre.formal_of(v))
        &&& (vt == VotingType::Formal ==> post.informal_of(v) == pre.informal_of(v))
        &&& post.votings@[v] == pre.votings@[v].with_stats(
            stats_add_vote(
                if unbound {
                    stats_add_unbound(pre.votings@[v].stats(), choice, stake)
                } else {
                    stats_add_bound(pre.votings@[v].stats(), choice, stake)
                },
                choice,
            ),
        )
        &&& if unbound {
            post_rep == pre_rep
        } else {
            &&& stake > 0
            &&& pre_rep.locked(w) + stake <= pre_rep.bal(w)
            &&& post_rep.locked(w) == pre_rep.locked(w) + stake
            &&& post_rep.stakes_storage.open_votings(w)
                == pre_rep.stakes_storage.open_votings(w).insert(
                (pre.self_address, voting_id),
            )
            &&& forall|a: int| a != w ==> post_rep.locked(a) == pre_rep.locked(a)
            &&& forall|a: int| post_rep.bal(a) == pre_rep.bal(a)
            &&& post_rep.reputation_storage == pre_rep.reputation_storage
            &&& post_rep.access_control == pre_rep.access_control
        }
    }

    /// Engine frame for operations that touch a single round: all other
    /// rounds and the engine's identity stay as they were.
    pub open spec fn single_round_frame(pre: VotingEngine, post: VotingEngine, v: int) -> bool {
        &&& post.self_address == pre.self_address
        &&& post.votings@.len() == pre.votings@.len()
        &&& post.informal_ballots@.len() == pre.informal_ballots@.len()
        &&& post.formal_ballots@.len() == pre.formal_ballots@.len()
        &&& forall|u: int| 0 <= u < pre.votings@.len() && u != v
            ==> post.votings@[u] == pre.votings@[u]
        &&& forall|u: int| 0 <= u < pre.votings@.len() && u != v
            ==> post.informal_of(u) == pre.informal_of(u)
        &&& forall|u: int| 0 <= u < pre.votings@.len() && u != v
            ==> post.formal_of(u) == pre.formal_of(u)
    }

    /// Records one ballot in the round's active phase: the engine's
    /// internal casting step, without the phase/time guards of `vote`.
    fn cast_ballot(
        &mut self,
        reputation: &mut ReputationContract,
        voter: Address,
        voting_id: VotingId,
        choice: Choice,
        stake: Balance,
        unbound: bool,
    ) -> (r: Result<(), Error>)
        requires
            old(self).wf(),
            old(reputation).wf(),
            voting_id < old(self).votings@.len(),
        ensures
            final(self).wf(),
            final(reputation).wf(),
            Self::single_round_frame(*old(self), *final(self), voting_id as int),
            match r {
                Ok(()) => Self::cast_effect(
                    *old(self),
                    *final(self),
                    *old(reputation),
                    *final(reputation),
                    voter,
                    voting_id,
                    choice,
                    stake,
                    unbound,
                ),
                Err(e) => {
                    let v = voting_id as int;
                    let vt = old(self).votings@[v].voting_type;
                    let bs = old(self).ballots_of(v, vt);
                    &&& *final(self) == *old(self)
                    &&& *final(reputation) == *old(reputation)
                    &&& (e == Error::CannotVoteTwice <==> Self::has_ballot(bs, voter))
                    &&& ((e == Error::CannotVoteTwice && Self::has_ballot(bs, voter))
                        || (e == Error::StorageFull
                            && (bs.len() >= 0xFFFF_FFFE
                                || old(self).votings@[v].total_stake_spec() + stake
                                    > u64::MAX))
                        || (e == Error::ZeroStake && !unbound && stake == 0)
                        || (e == Error::InsufficientBalance && !unbound
                            && old(reputation).locked(voter.0 as int) + stake
                                > old(reputation).bal(voter.0 as int))
                        || (e == Error::NotWhitelisted && !unbound
                            && !old(reputation).access_control.whitelist.contains_spec(
                            old(self).self_address,
                        )))
                },
            },
    {
        proof {
            assert(self.voting_wf(voting_id as int));
        }
        let v = voting_id as usize;
        let vt = self.votings[v].voting_type();
        let ghost pre_ballots = self.ballots_of(voting_id as int, vt);

        // One ballot per (round, phase, voter).
        let existing = self.get_ballot(voting_id, vt, voter);
        if existing.is_some() {
            return Err(Error::CannotVoteTwice);
        }

        let ballots_len = match vt {
            VotingType::Informal => self.informal_ballots[v].len(),
            VotingType::Formal => self.formal_ballots[v].len(),
        };
        if ballots_len >= 0xFFFF_FFFE {
            return Err(Error::StorageFull);
        }

        // The tallies of one phase stay within the balance type.
        let sum = self.votings[v].total_stake();
        if stake > u64::MAX - sum {
            return Err(Error::StorageFull);
        }

        if !unbound {
            let caller = self.self_address;
            let staked = reputation.stake_voting(
                caller,
                voting_id,
                ShortenedBallot { voter, stake },
            );
            if let Err(e) = staked {
                return Err(e);
            }
        }

        let ballot = Ballot {
            voter,
            voting_id,
            voting_type: vt,
            choice,
            stake,
            unbound,
            canceled: false,
        };
        proof {
            lemma_tallies_nonneg(pre_ballots, choice);
            lemma_tallies_nonneg(pre_ballots, Choice::InFavor);
            lemma_tallies_nonneg(pre_ballots, Choice::Against);
            lemma_tallies_push(pre_ballots, ballot, Choice::InFavor);
            lemma_tallies_push(pre_ballots, ballot, Choice::Against);
        }
        match vt {
            VotingType::Informal => self.informal_ballots[v].push(ballot),
            VotingType::Formal => self.formal_ballots[v].push(ballot),
        }
        if unbound {
            self.votings[v].add_unbound_stake(stake, choice);
        } else {
            self.votings[v].add_stake(stake, choice);
        }
        self.votings[v].record_vote(choice);
        proof {
            assert(self.ballots_of(voting_id as int, vt) =~= pre_ballots.push(ballot));
            assert forall|u: int| 0 <= u < self.votings@.len() implies self.voting_wf(u) by {
                assert(old(self).voting_wf(u));
                if u == voting_id as int {
                    assert(self.ballots_of(u, vt) =~= pre_ballots.push(ballot));
                }
            }
        }
        Ok(())
    }

    /// Casts a ballot in the round's active phase at `block_time`.
    ///
    /// The round must exist, be in the requested phase, not be
    /// completed, and the phase's time window must be open. The stake
    /// is locked in the ledger unless the round is an informal round
    /// that does not stake reputation; then the ballot counts unbound.
    pub fn vote(
        &mut self,
        reputation: &mut ReputationContract,
        voter: Address,
        voting_id: VotingId,
        voting_type: VotingType,
        choice: Choice,
        stake: Balance,
        block_time: BlockTime,
    ) -> (r: Result<BallotCast, Error>)
        requires
            old(self).wf(),
            old(reputation).wf(),
        ensures
            final(self).wf(),
            final(reputation).wf(),
            Self::single_round_frame(*old(self), *final(self), voting_id as int),
            match r {
                Ok(cast) => {
                    let m = old(self).votings@[voting_id as int];
                    &&& voting_id < old(self).votings@.len()
                    &&& m.voting_type == voting_type
                    &&& !m.completed_spec()
                    &&& m.state_in_time_spec(block_time) == match voting_type {
                        VotingType::Informal => VotingState::Informal,
                        VotingType::Formal => VotingState::Formal,
                    }
                    &&& cast == (BallotCast {
                        voter,
                        voting_id,
                        voting_type,
                        choice,
                        stake,
                    })
                    &&& Self::cast_effect(
                        *old(self),
                        *final(self),
                        *old(reputation),
                        *final(reputation),
                        voter,
                        voting_id,
                        choice,
                        stake,
                        m.is_informal_without_stake_spec(),
                    )
                },
                Err(e) => {
                    &&& *final(self) == *old(self)
                    &&& *final(reputation) == *old(reputation)
                    &&& (e == Error::VotingDoesNotExist
                        <==> voting_id >= old(self).votings@.len())
                    &&& vote_failure(
                        *old(self),
                        *old(reputation),
                        voter,
                        voting_id,
                        voting_type,
                        stake,
                        block_time,
                        e,
                    )
                },
            },
    {
        if (voting_id as usize) >= self.votings.len() {
            return Err(Error::VotingDoesNotExist);
        }
        let v = voting_id as usize;
        proof {
            assert(self.voting_wf(v as int));
        }
        if self.votings[v].voting_type() != voting_type {
            return Err(Error::VotingWithGivenTypeNotInProgress);
        }
        let guard = self.votings[v].guard_vote(block_time);
        if let Err(e) = guard {
            return Err(e);
        }
        let unbound = self.votings[v].is_informal_without_stake();
        let cast = self.cast_ballot(reputation, voter, voting_id, choice, stake, unbound);
        match cast {
            Ok(()) => Ok(BallotCast { voter, voting_id, voting_type, choice, stake }),
            Err(e) => Err(e),
        }
    }

    /// Creates a new informal round with a frozen configuration
    /// snapshot. Depending on the snapshot, immediately casts the
    /// creator's first in-favor ballot.
    pub fn create_voting(
        &mut self,
        reputation: &mut ReputationContract,
        creator: Address,
        creator_is_va: bool,
        stake: Balance,
        configuration: Configuration,
        block_time: BlockTime,
    ) -> (r: Result<VotingCreatedInfo, Error>)
        requires
            old(self).wf(),
            old(reputation).wf(),
            configuration.wf(),
            !configuration.time_between_votings_doubled,
            block_time <= TIME_BOUND,
        ensures
            final(self).wf(),
            final(reputation).wf(),
            final(self).self_address == old(self).self_address,
            forall|u: int| 0 <= u < old(self).votings@.len()
                ==> final(self).votings@[u] == old(self).votings@[u]
                    && final(self).informal_of(u) == old(self).informal_of(u)
                    && final(self).formal_of(u) == old(self).formal_of(u),
            match r {
                Ok(info) => {
                    let v = old(self).votings@.len() as int;
                    let base = VotingStateMachine {
                        voting_id: v as VotingId,
                        state: VotingState::Created,
                        voting_type: VotingType::Informal,
                        informal_stats: Stats::zero(),
                        formal_stats: Stats::zero(),
                        created_at: block_time,
                        creator,
                        configuration,
                    };
                    &&& final(self).votings@.len() == old(self).votings@.len() + 1
                    &&& (configuration.only_va_can_create ==> creator_is_va)
                    &&& info == (VotingCreatedInfo {
                        creator,
                        stake: if configuration.cast_first_vote {
                            Some(stake)
                        } else {
                            Option::<Balance>::None
                        },
                        voting_id: v as VotingId,
                        config_informal_quorum: configuration.informal_voting_quorum,
                        config_informal_voting_time: configuration.informal_voting_time,
                        config_formal_quorum: configuration.formal_voting_quorum,
                        config_formal_voting_time: configuration.formal_voting_time,
                        config_total_onboarded: configuration.total_onboarded,
                        config_double_time_between_votings: false,
                        config_voting_clearness_delta: configuration.voting_clearness_delta,
                        config_time_between_informal_and_formal_voting:
                            configuration.time_between_informal_and_formal_voting,
                    })
                    &&& final(self).formal_of(v).len() == 0
                    &&& if configuration.cast_first_vote {
                        &&& final(self).informal_of(v) =~= Seq::empty().push(
                            Ballot {
                                voter: creator,
                                voting_id: v as VotingId,
                                voting_type: VotingType::Informal,
                                choice: Choice::InFavor,
                                stake,
                                unbound: !configuration.informal_stake_reputation,
                                canceled: false,
                            },
                        )
                        &&& final(self).votings@[v] == base.with_stats(
                            stats_add_vote(
                                if !configuration.informal_stake_reputation {
                                    stats_add_unbound(Stats::zero(), Choice::InFavor, stake)
                                } else {
                                    stats_add_bound(Stats::zero(), Choice::InFavor, stake)
                                },
                                Choice::InFavor,
                            ),
                        )
                    } else {
                        &&& final(self).informal_of(v).len() == 0
                        &&& final(self).votings@[v] == base
                        &&& *final(reputation) == *old(reputation)
                    }
                },
                Err(e) => {
                    &&& (e == Error::NotOnboarded
                        ==> *final(self) == *old(self)
                            && *final(reputation) == *old(reputation))
                    &&& create_failure(
                        *old(self),
                        *old(reputation),
                        creator,
                        creator_is_va,
                        stake,
                        configuration,
                        e,
                    )
                },
            },
    {
        if configuration.only_va_can_create && !creator_is_va {
            return Err(Error::NotOnboarded);
        }
        if self.votings.len() >= 0xFFFF_FFFF {
            return Err(Error::StorageFull);
        }
        let voting_id = self.votings.len() as u32;
        let machine = VotingStateMachine::new(voting_id, block_time, creator, configuration);
        self.votings.push(machine);
        let no_informal: Vec<Ballot> = Vec::new();
        let no_formal: Vec<Ballot> = Vec::new();
        self.informal_ballots.push(no_informal);
        self.formal_ballots.push(no_formal);
        proof {
            assert forall|u: int| 0 <= u < self.votings@.len() implies self.voting_wf(u) by {
                if u < old(self).votings@.len() {
                    assert(old(self).voting_wf(u));
                    assert(self.informal_of(u) == old(self).informal_of(u));
                    assert(self.formal_of(u) == old(self).formal_of(u));
                }
            }
        }
        let mut used_stake: Option<Balance> = None;
        if configuration.cast_first_vote {
            let unbound = !configuration.informal_stake_reputation;
            let cast = self.cast_ballot(
                reputation,
                creator,
                voting_id,
                Choice::InFavor,
                stake,
                unbound,
            );
            if let Err(e) = cast {
                return Err(e);
            }
            used_stake = Some(stake);
        }
        Ok(VotingCreatedInfo::new(creator, voting_id, used_stake, &configuration))
    }
}


/// The ledger-facing projection of a ballot.
pub open spec fn shortened_of(b: Ballot) -> ShortenedBallot {
    ShortenedBallot { voter: b.voter, stake: b.stake }
}

/// The bound, non-canceled ballots of a phase, as ledger unstake
/// orders, in cast order.
pub open spec fn to_unstake(bs: Seq<Ballot>) -> Seq<ShortenedBallot>
    decreases bs.len(),
{
    if bs.len() == 0 {
        Seq::empty()
    } else {
        to_unstake(bs.drop_last())
            + if !bs.last().canceled && !bs.last().unbound {
                seq![shortened_of(bs.last())]
            } else {
                Seq::empty()
            }
    }
}

/// The burn orders of a formal settlement: one per bound, non-canceled
/// ballot on the losing side, burning exactly its stake.
pub open spec fn burns_of(bs: Seq<Ballot>, losing: Choice) -> Seq<(Address, Balance)>
    decreases bs.len(),
{
    if bs.len() == 0 {
        Seq::empty()
    } else {
        burns_of(bs.drop_last(), losing)
            + if bs.last().counts_bound(losing) {
                seq![(bs.last().voter, bs.last().stake)]
            } else {
                Seq::empty()
            }
    }
}

/// The mint orders of a formal settlement: one per bound, non-canceled
/// ballot on the winning side, minting the ballot's proportional share
/// of the losing stake, rounded down.
pub open spec fn mints_of(bs: Seq<Ballot>, winning: Choice, wt: Balance, lt: Balance) -> Seq<
    (Address, Balance),
>
    decreases bs.len(),
{
    if bs.len() == 0 {
        Seq::empty()
    } else {
        mints_of(bs.drop_last(), winning, wt, lt)
            + if bs.last().counts_bound(winning) {
                seq![(bs.last().voter, (bs.last().stake * lt / (wt as int)) as u64)]
            } else {
                Seq::empty()
            }
    }
}

/// An account missing from a ballot list has nothing in its unstake
/// orders.
pub proof fn lemma_unstake_absent(bs: Seq<Ballot>, a: int)
    requires
        forall|i: int| 0 <= i < bs.len() ==> (#[trigger] bs[i]).voter.0 != a,
    ensures
        crate::stakes::ballots_staked_of(to_unstake(bs), a) == 0,
    decreases bs.len(),
{
    if bs.len() > 0 {
        assert(forall|i: int| 0 <= i < bs.drop_last().len()
            ==> bs.drop_last()[i] == bs[i]);
        lemma_unstake_absent(bs.drop_last(), a);
        if !bs.last().canceled && !bs.last().unbound {
            assert(to_unstake(bs)
                =~= to_unstake(bs.drop_last()).push(shortened_of(bs.last())));
            assert(to_unstake(bs).drop_last() =~= to_unstake(bs.drop_last()));
        } else {
            assert(to_unstake(bs) =~= to_unstake(bs.drop_last()));
        }
    }
}

/// With unique voters, the burn orders of a settlement line up with
/// its unstake orders: every burn order names a voter of the list,
/// distinct voters, and the voter's unstaked total is exactly the
/// burned amount.
pub proof fn lemma_burns_aligned(bs: Seq<Ballot>, losing: Choice)
    requires
        forall|i: int, j: int| 0 <= i < j < bs.len()
            ==> (#[trigger] bs[i]).voter != (#[trigger] bs[j]).voter,
    ensures
        forall|k: int| 0 <= k < burns_of(bs, losing).len()
            ==> crate::stakes::ballots_staked_of(
                to_unstake(bs),
                (#[trigger] burns_of(bs, losing)[k]).0.0 as int,
            ) == burns_of(bs, losing)[k].1,
        forall|k: int, l: int| 0 <= k < l < burns_of(bs, losing).len()
            ==> (#[trigger] burns_of(bs, losing)[k]).0
                != (#[trigger] burns_of(bs, losing)[l]).0,
        forall|k: int| 0 <= k < burns_of(bs, losing).len()
            ==> exists|i: int| 0 <= i < bs.len()
                && (#[trigger] bs[i]).voter == (#[trigger] burns_of(bs, losing)[k]).0,
    decreases bs.len(),
{
    if bs.len() > 0 {
        let prefix = bs.drop_last();
        let b = bs.last();
        assert(forall|i: int| 0 <= i < prefix.len() ==> prefix[i] == bs[i]);
        lemma_burns_aligned(prefix, losing);
        let pb = burns_of(prefix, losing);
        let whole = burns_of(bs, losing);
        // The last ballot's voter does not occur earlier in the list.
        assert(forall|i: int| 0 <= i < prefix.len()
            ==> (#[trigger] prefix[i]).voter != b.voter);
        // The unstake orders of the whole list extend those of the prefix.
        if !b.canceled && !b.unbound {
            assert(to_unstake(bs) =~= to_unstake(prefix).push(shortened_of(b)));
            assert(to_unstake(bs).drop_last() =~= to_unstake(prefix));
        } else {
            assert(to_unstake(bs) =~= to_unstake(prefix));
        }
        assert forall|a: int| a != b.voter.0 as int implies crate::stakes::ballots_staked_of(
            to_unstake(bs),
            a,
        ) == crate::stakes::ballots_staked_of(to_unstake(prefix), a) by {
        }
        if b.counts_bound(losing) {
            assert(whole =~= pb.push((b.voter, b.stake)));
            assert(whole.drop_last() =~= pb);
            lemma_unstake_absent(prefix, b.voter.0 as int);
            assert(crate::stakes::ballots_staked_of(to_unstake(bs), b.voter.0 as int)
                == b.stake);
            assert forall|k: int| 0 <= k < whole.len() implies
                crate::stakes::ballots_staked_of(
                    to_unstake(bs),
                    (#[trigger] whole[k]).0.0 as int,
                ) == whole[k].1 by {
                if k < pb.len() {
                    assert(whole[k] == pb[k]);
                    let i = choose|i: int| 0 <= i < prefix.len()
                        && (#[trigger] prefix[i]).voter == pb[k].0;
                    assert(prefix[i].voter != b.voter);
                }
            }
            assert forall|k: int, l: int| 0 <= k < l < whole.len() implies
                (#[trigger] whole[k]).0 != (#[trigger] whole[l]).0 by {
                if l < pb.len() {
                } else {
                    let i = choose|i: int| 0 <= i < prefix.len()
                        && (#[trigger] prefix[i]).voter == pb[k].0;
                    assert(prefix[i].voter != b.voter);
                }
            }
        } else {
            assert(whole =~= pb);
            assert forall|k: int| 0 <= k < whole.len() implies
                crate::stakes::ballots_staked_of(
                    to_unstake(bs),
                    (#[trigger] whole[k]).0.0 as int,
                ) == whole[k].1 by {
                assert(whole[k] == pb[k]);
                let i = choose|i: int| 0 <= i < prefix.len()
                    && (#[trigger] prefix[i]).voter == pb[k].0;
                assert(prefix[i].voter != b.voter);
            }
        }
    }
}

/// The burn orders of a settlement burn exactly the losing tally.
pub proof fn lemma_burns_total(bs: Seq<Ballot>, losing: Choice)
    ensures
        sum_amounts(burns_of(bs, losing)) == tally_bound(bs, losing),
    decreases bs.len(),
{
    if bs.len() > 0 {
        lemma_burns_total(bs.drop_last(), losing);
        if bs.last().counts_bound(losing) {
            assert(burns_of(bs, losing)
                =~= burns_of(bs.drop_last(), losing).push((bs.last().voter, bs.last().stake)));
            assert(burns_of(bs, losing).drop_last() =~= burns_of(bs.drop_last(), losing));
        }
    }
}

/// The mint orders of a settlement never mint more than the share of
/// the losing stake that the covered winning tally carries.
pub proof fn lemma_mints_partial(bs: Seq<Ballot>, winning: Choice, wt: Balance, lt: Balance)
    requires
        0 < wt,
        lt <= wt,
    ensures
        0 <= sum_amounts(mints_of(bs, winning, wt, lt))
            <= tally_bound(bs, winning) * lt / (wt as int),
    decreases bs.len(),
{
    let d = wt as int;
    if bs.len() == 0 {
        assert(tally_bound(bs, winning) * lt == 0) by (nonlinear_arith)
            requires tally_bound(bs, winning) == 0;
    } else {
        let prefix = bs.drop_last();
        let b = bs.last();
        lemma_mints_partial(prefix, winning, wt, lt);
        lemma_tallies_nonneg(prefix, winning);
        if b.counts_bound(winning) {
            let share = (b.stake * lt / d) as u64;
            crate::math::lemma_share_le_whole(b.stake, lt, wt);
            assert(mints_of(bs, winning, wt, lt)
                =~= mints_of(prefix, winning, wt, lt).push((b.voter, share)));
            assert(mints_of(bs, winning, wt, lt).drop_last()
                =~= mints_of(prefix, winning, wt, lt));
            assert(0 <= b.stake * lt) by (nonlinear_arith)
                requires 0 <= b.stake, 0 <= lt;
            assert(0 <= tally_bound(prefix, winning) * lt) by (nonlinear_arith)
                requires 0 <= tally_bound(prefix, winning), 0 <= lt;
            crate::math::lemma_div_sum_le(tally_bound(prefix, winning) * lt, b.stake * lt, d);
            assert(tally_bound(prefix, winning) * lt + b.stake * lt
                == tally_bound(bs, winning) * lt) by (nonlinear_arith)
                requires tally_bound(prefix, winning) + b.stake == tally_bound(bs, winning);
        } else {
            assert(mints_of(bs, winning, wt, lt) =~= mints_of(prefix, winning, wt, lt));
            assert(tally_bound(prefix, winning) * lt == tally_bound(bs, winning) * lt);
        }
    }
}

/// A formal settlement conserves reputation: what the mint orders
/// create never exceeds what the burn orders destroy.
///
/// Each share is rounded down, so the rounding dust simply vanishes;
/// nothing redistributes it.
pub proof fn lemma_settlement_conserves(
    bs: Seq<Ballot>,
    winning: Choice,
    losing: Choice,
    wt: Balance,
    lt: Balance,
)
    requires
        wt == tally_bound(bs, winning),
        lt == tally_bound(bs, losing),
        lt <= wt,
        0 < wt,
    ensures
        sum_amounts(burns_of(bs, losing)) == lt,
        0 <= sum_amounts(mints_of(bs, winning, wt, lt)) <= lt,
{
    lemma_burns_total(bs, losing);
    lemma_mints_partial(bs, winning, wt, lt);
    assert(wt * lt / (wt as int) == lt) by (nonlinear_arith)
        requires 0 < wt, 0 <= lt;
}

impl VotingEngine {
    /// Collects the ledger unstake orders of a phase's ballots.
    fn collect_unstakes(ballots: &Vec<Ballot>) -> (r: Vec<ShortenedBallot>)
        ensures
            r@ == to_unstake(ballots@),
    {
        let mut result: Vec<ShortenedBallot> = Vec::new();
        let mut i: usize = 0;
        while i < ballots.len()
            invariant
                i <= ballots@.len(),
                result@ == to_unstake(ballots@.take(i as int)),
            decreases ballots@.len() - i,
        {
            let b = ballots[i];
            proof {
                assert(ballots@.take(i + 1).drop_last() =~= ballots@.take(i as int));
                assert(ballots@.take(i + 1).last() == ballots@[i as int]);
            }
            if !b.canceled && !b.unbound {
                result.push(ShortenedBallot { voter: b.voter, stake: b.stake });
                proof {
                    assert(result@ =~= to_unstake(ballots@.take(i + 1)));
                }
            } else {
                proof {
                    assert(result@ =~= to_unstake(ballots@.take(i + 1)));
                }
            }
            i += 1;
        }
        proof {
            assert(ballots@.take(ballots@.len() as int) =~= ballots@);
        }
        result
    }

    /// Collects the burn orders of a formal settlement.
    fn collect_burns(ballots: &Vec<Ballot>, losing: Choice) -> (r: Vec<(Address, Balance)>)
        ensures
            r@ == burns_of(ballots@, losing),
    {
        let mut result: Vec<(Address, Balance)> = Vec::new();
        let mut i: usize = 0;
        while i < ballots.len()
            invariant
                i <= ballots@.len(),
                result@ == burns_of(ballots@.take(i as int), losing),
            decreases ballots@.len() - i,
        {
            let b = ballots[i];
            proof {
                assert(ballots@.take(i + 1).drop_last() =~= ballots@.take(i as int));
                assert(ballots@.take(i + 1).last() == ballots@[i as int]);
            }
            if !b.canceled && !b.unbound && b.choice == losing {
                result.push((b.voter, b.stake));
            }
            proof {
                assert(result@ =~= burns_of(ballots@.take(i + 1), losing));
            }
            i += 1;
        }
        proof {
            assert(ballots@.take(ballots@.len() as int) =~= ballots@);
        }
        result
    }

    /// Collects the mint orders of a formal settlement: each winning
    /// ballot's proportional share of the losing stake, rounded down.
    fn collect_mints(
        ballots: &Vec<Ballot>,
        winning: Choice,
        wt: Balance,
        lt: Balance,
    ) -> (r: Vec<(Address, Balance)>)
        requires
            0 < wt,
            lt <= wt,
        ensures
            r@ == mints_of(ballots@, winning, wt, lt),
    {
        let mut result: Vec<(Address, Balance)> = Vec::new();
        let mut i: usize = 0;
        while i < ballots.len()
            invariant
                0 < wt,
                lt <= wt,
                i <= ballots@.len(),
                result@ == mints_of(ballots@.take(i as int), winning, wt, lt),
            decreases ballots@.len() - i,
        {
            let b = ballots[i];
            proof {
                assert(ballots@.take(i + 1).drop_last() =~= ballots@.take(i as int));
                assert(ballots@.take(i + 1).last() == ballots@[i as int]);
            }
            if !b.canceled && !b.unbound && b.choice == winning {
                proof {
                    crate::math::lemma_u64_mul_fits(b.stake, lt);
                    crate::math::lemma_share_le_whole(b.stake, lt, wt);
                }
                let share: u64 =
                    (((b.stake as u128) * (lt as u128)) / (wt as u128)) as u64;
                result.push((b.voter, share));
            }
            proof {
                assert(result@ =~= mints_of(ballots@.take(i + 1), winning, wt, lt));
            }
            i += 1;
        }
        proof {
            assert(ballots@.take(ballots@.len() as int) =~= ballots@);
        }
        result
    }

    /// Tags unstake orders with a settlement reason for reporting.
    fn tag_unstakes(
        list: &Vec<ShortenedBallot>,
        reason: crate::voting_events::Reason,
    ) -> (r: Vec<(Address, crate::voting_events::Reason, Balance)>)
        ensures
            r@.len() == list@.len(),
            forall|k: int| 0 <= k < list@.len()
                ==> r@[k] == (list@[k].voter, reason, list@[k].stake),
    {
        let mut result: Vec<(Address, crate::voting_events::Reason, Balance)> = Vec::new();
        let mut i: usize = 0;
        while i < list.len()
            invariant
                i <= list@.len(),
                result@.len() == i,
                forall|k: int| 0 <= k < i
                    ==> result@[k] == (list@[k].voter, reason, list@[k].stake),
            decreases list@.len() - i,
        {
            let entry = list[i];
            result.push((entry.voter, reason, entry.stake));
            i += 1;
        }
        result
    }

    /// Tags (account, amount) orders with a settlement reason.
    fn tag_pays(
        list: &Vec<(Address, Balance)>,
        reason: crate::voting_events::Reason,
    ) -> (r: Vec<(Address, crate::voting_events::Reason, Balance)>)
        ensures
            r@.len() == list@.len(),
            forall|k: int| 0 <= k < list@.len()
                ==> r@[k] == (list@[k].0, reason, list@[k].1),
    {
        let mut result: Vec<(Address, crate::voting_events::Reason, Balance)> = Vec::new();
        let mut i: usize = 0;
        while i < list.len()
            invariant
                i <= list@.len(),
                result@.len() == i,
                forall|k: int| 0 <= k < i ==> result@[k] == (list@[k].0, reason, list@[k].1),
            decreases list@.len() - i,
        {
            let entry = list[i];
            result.push((entry.0, reason, entry.1));
            i += 1;
        }
        result
    }
}


/// Everything a finished informal phase guarantees: every bound ballot
/// unstaked, balances untouched, the machine advanced to the formal
/// phase or finished, and the report listing exactly the released
/// stakes.
pub open spec fn informal_finish_ok(
    pre_e: VotingEngine,
    post_e: VotingEngine,
    pre_r: ReputationContract,
    post_r: ReputationContract,
    voting_id: VotingId,
    block_time: BlockTime,
    summary: VotingSummary,
    ended: VotingEnded,
) -> bool {
    let v = voting_id as int;
    let m = pre_e.votings@[v];
    let bs = pre_e.informal_of(v);
    let result = m.get_result_spec(bs.len() as u32);
    let rejected = result == VotingResult::Against || result == VotingResult::QuorumNotReached;
    &&& !m.completed_spec()
    &&& m.state_in_time_spec(block_time) != VotingState::Created
    &&& m.state_in_time_spec(block_time) != VotingState::Informal
    &&& summary == (VotingSummary { result, ty: VotingType::Informal, voting_id })
    &&& if rejected {
        post_e.votings@[v] == (VotingStateMachine { state: VotingState::Finished, ..m })
    } else {
        &&& post_e.votings@[v].state == VotingState::Formal
        &&& post_e.votings@[v].voting_type == VotingType::Formal
        &&& post_e.votings@[v].informal_stats == m.informal_stats
        &&& post_e.votings@[v].formal_stats == m.formal_stats
        &&& post_e.votings@[v].created_at == m.created_at
        &&& post_e.votings@[v].creator == m.creator
        &&& post_e.votings@[v].voting_id == m.voting_id
        &&& post_e.votings@[v].configuration.time_between_votings_doubled
            == m.close_enough_to_double()
        &&& (m.close_enough_to_double()
            ==> post_e.votings@[v].configuration.time_between_informal_and_formal_voting
                == 2 * m.configuration.time_between_informal_and_formal_voting)
        &&& (!m.close_enough_to_double()
            ==> post_e.votings@[v].configuration == m.configuration)
    }
    &&& post_e.informal_of(v) == bs
    &&& post_e.formal_of(v) == pre_e.formal_of(v)
    &&& forall|a: int| post_r.locked(a) == pre_r.locked(a)
        - crate::stakes::ballots_staked_of(to_unstake(bs), a)
    &&& forall|a: int| post_r.bal(a) == pre_r.bal(a)
    &&& post_r.access_control == pre_r.access_control
    &&& ended.voting_id == voting_id
    &&& ended.voting_type == VotingType::Informal
    &&& ended.voting_result == result
    &&& ended.stake_in_favor == m.informal_stats.stake_in_favor
    &&& ended.stake_against == m.informal_stats.stake_against
    &&& ended.unbound_stake_in_favor == m.informal_stats.unbound_stake_in_favor
    &&& ended.unbound_stake_against == m.informal_stats.unbound_stake_against
    &&& ended.votes_in_favor == m.informal_stats.votes_in_favor
    &&& ended.votes_against == m.informal_stats.votes_against
    &&& ended.unstakes@.len() == to_unstake(bs).len()
    &&& forall|k: int| 0 <= k < to_unstake(bs).len()
        ==> ended.unstakes@[k] == (
            to_unstake(bs)[k].voter,
            crate::voting_events::Reason::InformalFinished,
            to_unstake(bs)[k].stake,
        )
    &&& ended.stakes@.len() == 0
    &&& ended.burns@.len() == 0
    &&& ended.mints@.len() == 0
}

/// Everything a finished formal phase guarantees: every bound ballot
/// unstaked; on a decisive result the losing stakes burned and each
/// winning ballot minted its floor-division share of the losing
/// stake; on a missed quorum no balance changes at all; and the
/// report listing exactly those movements.
pub open spec fn formal_finish_ok(
    pre_e: VotingEngine,
    post_e: VotingEngine,
    pre_r: ReputationContract,
    post_r: ReputationContract,
    voting_id: VotingId,
    block_time: BlockTime,
    summary: VotingSummary,
    ended: VotingEnded,
) -> bool {
    let v = voting_id as int;
    let m = pre_e.votings@[v];
    let bs = pre_e.formal_of(v);
    let result = m.get_result_spec(bs.len() as u32);
    let decisive = result == VotingResult::InFavor || result == VotingResult::Against;
    let winning = if m.is_in_favor_spec() { Choice::InFavor } else { Choice::Against };
    let losing = if m.is_in_favor_spec() { Choice::Against } else { Choice::InFavor };
    let wt = m.get_winning_stake_spec();
    let lt = m.get_losing_stake_spec();
    let burns = if decisive { burns_of(bs, losing) } else { Seq::empty() };
    let mints = if decisive && wt > 0 {
        mints_of(bs, winning, wt, lt)
    } else {
        Seq::empty()
    };
    &&& !m.completed_spec()
    &&& m.state_in_time_spec(block_time) == VotingState::Finished
    &&& summary == (VotingSummary { result, ty: VotingType::Formal, voting_id })
    &&& post_e.votings@[v] == (VotingStateMachine { state: VotingState::Finished, ..m })
    &&& post_e.informal_of(v) == pre_e.informal_of(v)
    &&& post_e.formal_of(v) == bs
    &&& forall|a: int| post_r.locked(a) == pre_r.locked(a)
        - crate::stakes::ballots_staked_of(to_unstake(bs), a)
    &&& forall|a: int| post_r.bal(a) == pre_r.bal(a) - pays_of(burns, a) + pays_of(mints, a)
    &&& post_r.access_control == pre_r.access_control
    &&& ended.voting_id == voting_id
    &&& ended.voting_type == VotingType::Formal
    &&& ended.voting_result == result
    &&& ended.stake_in_favor == m.formal_stats.stake_in_favor
    &&& ended.stake_against == m.formal_stats.stake_against
    &&& ended.unbound_stake_in_favor == m.formal_stats.unbound_stake_in_favor
    &&& ended.unbound_stake_against == m.formal_stats.unbound_stake_against
    &&& ended.votes_in_favor == m.formal_stats.votes_in_favor
    &&& ended.votes_against == m.formal_stats.votes_against
    &&& ended.unstakes@.len() == to_unstake(bs).len()
    &&& forall|k: int| 0 <= k < to_unstake(bs).len()
        ==> ended.unstakes@[k] == (
            to_unstake(bs)[k].voter,
            crate::voting_events::Reason::FormalFinished,
            to_unstake(bs)[k].stake,
        )
    &&& ended.stakes@.len() == 0
    &&& ended.burns@.len() == burns.len()
    &&& forall|k: int| 0 <= k < burns.len()
        ==> ended.burns@[k] == (
            burns[k].0,
            crate::voting_events::Reason::FormalLost,
            burns[k].1,
        )
    &&& ended.mints@.len() == mints.len()
    &&& forall|k: int| 0 <= k < mints.len()
        ==> ended.mints@[k] == (
            mints[k].0,
            crate::voting_events::Reason::FormalWon,
            mints[k].1,
        )
}

impl VotingEngine {
    /// Settles the informal phase of a round once its window has
    /// elapsed: returns every bound stake, then either finishes the
    /// round (rejected or quorum missed) or advances it to the formal
    /// phase.
    fn finish_informal(
        &mut self,
        reputation: &mut ReputationContract,
        voting_id: VotingId,
        block_time: BlockTime,
    ) -> (r: Result<(VotingSummary, VotingEnded), Error>)
        requires
            old(self).wf(),
            old(reputation).wf(),
            voting_id < old(self).votings@.len(),
            old(self).votings@[voting_id as int].voting_type == VotingType::Informal,
        ensures
            final(self).wf(),
            final(reputation).wf(),
            Self::single_round_frame(*old(self), *final(self), voting_id as int),
            match r {
                Ok((summary, ended)) => informal_finish_ok(
                    *old(self),
                    *final(self),
                    *old(reputation),
                    *final(reputation),
                    voting_id,
                    block_time,
                    summary,
                    ended,
                ),
                Err(e) => {
                    let m = old(self).votings@[voting_id as int];
                    let bs = old(self).informal_of(voting_id as int);
                    &&& (e == Error::FinishingCompletedVotingNotAllowed
                        <==> m.completed_spec())
                    &&& ((e == Error::FinishingCompletedVotingNotAllowed
                        && m.completed_spec())
                        || (e == Error::InformalVotingNotYetFinished
                            && (m.state_in_time_spec(block_time) == VotingState::Created
                                || m.state_in_time_spec(block_time)
                                    == VotingState::Informal))
                        || (e == Error::ZeroStake && exists|a: int|
                            crate::stakes::ballots_staked_of(to_unstake(bs), a)
                                > old(reputation).locked(a))
                        || (e == Error::NotWhitelisted
                            && !old(reputation).access_control.whitelist.contains_spec(
                            old(self).self_address,
                        )))
                },
            },
    {
        proof {
            assert(self.voting_wf(voting_id as int));
        }
        let v = voting_id as usize;
        if self.votings[v].completed() {
            return Err(Error::FinishingCompletedVotingNotAllowed);
        }
        let state_now = self.votings[v].state_in_time(block_time);
        if state_now == VotingState::Created || state_now == VotingState::Informal {
            return Err(Error::InformalVotingNotYetFinished);
        }
        let voters_number = self.informal_ballots[v].len() as u32;
        let result = self.votings[v].get_result(voters_number);
        let ghost bs = self.informal_of(v as int);
        let unstake_list = Self::collect_unstakes(&self.informal_ballots[v]);
        let caller = self.self_address;
        let unstaked = reputation.bulk_unstake_voting(caller, voting_id, &unstake_list);
        if let Err(e) = unstaked {
            // The host discards the call's changes on error.
            return Err(e);
        }
        let machine_snapshot = self.votings[v];
        let rejected = match result {
            VotingResult::Against | VotingResult::QuorumNotReached => true,
            _ => false,
        };
        if rejected {
            self.votings[v].finish();
        } else {
            self.votings[v].complete_informal_voting();
        }
        proof {
            assert forall|u: int| 0 <= u < self.votings@.len() implies self.voting_wf(u) by {
                assert(old(self).voting_wf(u));
            }
        }
        let stats = *machine_snapshot.informal_stats();
        let unstakes =
            Self::tag_unstakes(&unstake_list, crate::voting_events::Reason::InformalFinished);
        let no_stakes: Vec<(Address, crate::voting_events::Reason, Balance)> = Vec::new();
        let no_burns: Vec<(Address, crate::voting_events::Reason, Balance)> = Vec::new();
        let no_mints: Vec<(Address, crate::voting_events::Reason, Balance)> = Vec::new();
        let ended = VotingEnded::new(
            &machine_snapshot,
            result,
            &stats,
            unstakes,
            no_stakes,
            no_burns,
            no_mints,
        );
        let summary = VotingSummary::new(result, VotingType::Informal, voting_id);
        Ok((summary, ended))
    }

    /// Settles the formal phase of a round once its window has
    /// elapsed: returns every bound stake; on a decisive result burns
    /// the losing stakes and mints each winning ballot its
    /// proportional, floor-divided share of the losing stake; on a
    /// missed quorum touches no balances.
    fn finish_formal(
        &mut self,
        reputation: &mut ReputationContract,
        voting_id: VotingId,
        block_time: BlockTime,
    ) -> (r: Result<(VotingSummary, VotingEnded), Error>)
        requires
            old(self).wf(),
            old(reputation).wf(),
            voting_id < old(self).votings@.len(),
            old(self).votings@[voting_id as int].voting_type == VotingType::Formal,
        ensures
            final(self).wf(),
            final(reputation).wf(),
            Self::single_round_frame(*old(self), *final(self), voting_id as int),
            match r {
                Ok((summary, ended)) => formal_finish_ok(
                    *old(self),
                    *final(self),
                    *old(reputation),
                    *final(reputation),
                    voting_id,
                    block_time,
                    summary,
                    ended,
                ),
                Err(e) => {
                    let m = old(self).votings@[voting_id as int];
                    let bs = old(self).formal_of(voting_id as int);
                    &&& (e == Error::FinishingCompletedVotingNotAllowed
                        <==> m.completed_spec())
                    &&& ((e == Error::FinishingCompletedVotingNotAllowed
                        && m.completed_spec())
                        || (e == Error::FormalVotingNotYetFinished
                            && m.state_in_time_spec(block_time) != VotingState::Finished)
                        || (e == Error::ZeroStake && exists|a: int|
                            crate::stakes::ballots_staked_of(to_unstake(bs), a)
                                > old(reputation).locked(a))
                        || (e == Error::NotWhitelisted
                            && !old(reputation).access_control.whitelist.contains_spec(
                            old(self).self_address,
                        )))
                },
            },
    {
        proof {
            assert(self.voting_wf(voting_id as int));
        }
        let v = voting_id as usize;
        let guard = self.votings[v].guard_finish_formal_voting(block_time);
        if let Err(e) = guard {
            return Err(e);
        }
        let voters_number = self.formal_ballots[v].len() as u32;
        let result = self.votings[v].get_result(voters_number);
        let ghost bs = self.formal_of(v as int);
        let ghost pre_rep = *reputation;
        let unstake_list = Self::collect_unstakes(&self.formal_ballots[v]);
        let caller = self.self_address;
        let unstaked = reputation.bulk_unstake_voting(caller, voting_id, &unstake_list);
        if let Err(e) = unstaked {
            return Err(e);
        }
        let ghost mid_rep = *reputation;

        let no_moves: Vec<(Address, crate::voting_events::Reason, Balance)> = Vec::new();
        let decisive = match result {
            VotingResult::InFavor | VotingResult::Against => true,
            _ => false,
        };
        let mut burn_list: Vec<(Address, Balance)> = Vec::new();
        let mut mint_list: Vec<(Address, Balance)> = Vec::new();
        if !decisive {
            proof {
                assert forall|a: int| reputation.locked(a) == pre_rep.locked(a)
                    - crate::stakes::ballots_staked_of(to_unstake(bs), a) by {
                    assert(mid_rep.locked(a) == pre_rep.locked(a)
                        - crate::stakes::ballots_staked_of(to_unstake(bs), a));
                }
                assert forall|a: int| reputation.bal(a) == pre_rep.bal(a) by {
                    assert(mid_rep.bal(a) == pre_rep.bal(a));
                }
            }
        }
        if decisive {
            let in_favor = self.votings[v].is_in_favor();
            let winning = if in_favor { Choice::InFavor } else { Choice::Against };
            let losing = if in_favor { Choice::Against } else { Choice::InFavor };
            let wt = self.votings[v].get_winning_stake();
            let lt = if in_favor {
                self.votings[v].stake_against()
            } else {
                self.votings[v].stake_in_favor()
            };
            burn_list = Self::collect_burns(&self.formal_ballots[v], losing);
            proof {
                lemma_burns_aligned(bs, losing);
            }
            // Burn the losing stakes; each loser's stake was just
            // released, so the burn stays within the unlocked balance.
            let mut k: usize = 0;
            while k < burn_list.len()
                invariant
                    old(self).wf(),
                    old(self).voting_wf(voting_id as int),
                    *self == *old(self),
                    voting_id < old(self).votings@.len(),
                    !old(self).votings@[voting_id as int].completed_spec(),
                    reputation.wf(),
                    k <= burn_list@.len(),
                    burn_list@ == burns_of(bs, losing),
                    forall|i: int, j: int| 0 <= i < j < bs.len()
                        ==> (#[trigger] bs[i]).voter != (#[trigger] bs[j]).voter,
                    forall|i: int| 0 <= i < burn_list@.len()
                        ==> crate::stakes::ballots_staked_of(
                            to_unstake(bs),
                            (#[trigger] burn_list@[i]).0.0 as int,
                        ) == burn_list@[i].1,
                    forall|i: int, j: int| 0 <= i < j < burn_list@.len()
                        ==> (#[trigger] burn_list@[i]).0 != (#[trigger] burn_list@[j]).0,
                    pre_rep.wf(),
                    reputation.access_control == mid_rep.access_control,
                    mid_rep.access_control.whitelist.contains_spec(caller),
                    reputation.stakes_storage == mid_rep.stakes_storage,
                    reputation.passive_reputation_storage
                        == mid_rep.passive_reputation_storage,
                    forall|a: int| mid_rep.locked(a) == pre_rep.locked(a)
                        - crate::stakes::ballots_staked_of(to_unstake(bs), a),
                    forall|a: int| mid_rep.bal(a) == pre_rep.bal(a),
                    forall|a: int| reputation.bal(a) == mid_rep.bal(a)
                        - pays_of(burn_list@.take(k as int), a),
                    reputation.reputation_storage.total_supply
                        == mid_rep.reputation_storage.total_supply
                            - sum_amounts(burn_list@.take(k as int)),
                decreases burn_list@.len() - k,
            {
                let order = burn_list[k];
                proof {
                    assert(burn_list@[k as int] == order);
                    assert(crate::stakes::ballots_staked_of(
                        to_unstake(bs),
                        order.0.0 as int,
                    ) == order.1);
                    assert(burn_list@.take(k as int).len() == k as int);
                    assert forall|l: int| 0 <= l < k
                        implies (#[trigger] burn_list@.take(k as int)[l]).0.0
                            != order.0.0 by {
                        assert(burn_list@.take(k as int)[l] == burn_list@[l]);
                        assert(burn_list@[l].0 != burn_list@[k as int].0);
                    }
                    lemma_pays_absent(burn_list@.take(k as int), order.0.0 as int);
                    assert(reputation.bal(order.0.0 as int) == pre_rep.bal(order.0.0 as int));
                    assert(pre_rep.locked(order.0.0 as int)
                        <= pre_rep.bal(order.0.0 as int));
                    assert(reputation.locked(order.0.0 as int)
                        == mid_rep.locked(order.0.0 as int));
                    assert(mid_rep.locked(order.0.0 as int)
                        == pre_rep.locked(order.0.0 as int) - order.1);
                    crate::stakes::lemma_ballots_staked_nonneg(
                        to_unstake(bs),
                        order.0.0 as int,
                    );
                }
                let done = reputation.burn(caller, order.0, order.1);
                if let Err(e) = done {
                    return Err(e);
                }
                proof {
                    assert(burn_list@.take(k + 1).drop_last() =~= burn_list@.take(k as int));
                    assert(burn_list@.take(k + 1).last() == burn_list@[k as int]);
                }
                k += 1;
            }
            proof {
                assert(burn_list@.take(burn_list@.len() as int) =~= burn_list@);
            }

            // Mint each winner its share of the losing stake.
            if wt > 0 {
                proof {
                    assert(self.votings@[v as int].stats()
                        == self.votings@[v as int].formal_stats);
                    lemma_tallies_nonneg(bs, winning);
                    lemma_tallies_nonneg(bs, losing);
                }
                mint_list = Self::collect_mints(&self.formal_ballots[v], winning, wt, lt);
                proof {
                    lemma_burns_total(bs, losing);
                    lemma_settlement_conserves(bs, winning, losing, wt, lt);
                    assert(burn_list@.take(burn_list@.len() as int) =~= burn_list@);
                }
                let ghost rep_after_burns = *reputation;
                let mut k: usize = 0;
                while k < mint_list.len()
                    invariant
                        old(self).wf(),
                        old(self).voting_wf(voting_id as int),
                        *self == *old(self),
                        voting_id < old(self).votings@.len(),
                        !old(self).votings@[voting_id as int].completed_spec(),
                        reputation.wf(),
                        k <= mint_list@.len(),
                        mint_list@ == mints_of(bs, winning, wt, lt),
                        reputation.access_control == rep_after_burns.access_control,
                        rep_after_burns.access_control.whitelist.contains_spec(caller),
                        reputation.stakes_storage == rep_after_burns.stakes_storage,
                        reputation.passive_reputation_storage
                            == rep_after_burns.passive_reputation_storage,
                        forall|a: int| reputation.bal(a) == rep_after_burns.bal(a)
                            + pays_of(mint_list@.take(k as int), a),
                        reputation.reputation_storage.total_supply
                            == rep_after_burns.reputation_storage.total_supply
                                + sum_amounts(mint_list@.take(k as int)),
                        rep_after_burns.reputation_storage.total_supply
                            == mid_rep.reputation_storage.total_supply
                                - tally_bound(bs, losing),
                        mint_list@ == mints_of(bs, winning, wt, lt),
                        0 <= sum_amounts(mints_of(bs, winning, wt, lt))
                            <= tally_bound(bs, losing),
                    decreases mint_list@.len() - k,
                {
                    let order = mint_list[k];
                    proof {
                        // The settlement never mints more than it
                        // burned, so the supply cannot overflow here.
                        assert(mint_list@.take(k + 1).drop_last()
                            =~= mint_list@.take(k as int));
                        assert(mint_list@.take(k + 1).last() == mint_list@[k as int]);
                        crate::types::lemma_sum_amounts_prefix(mint_list@, k + 1);
                        assert(reputation.reputation_storage.total_supply + order.1
                            <= u64::MAX);
                    }
                    let done = reputation.mint(caller, order.0, order.1);
                    if let Err(e) = done {
                        return Err(e);
                    }
                    k += 1;
                }
                proof {
                    assert(mint_list@.take(mint_list@.len() as int) =~= mint_list@);
                }
            }
            proof {
                assert(burn_list@ == burns_of(bs, losing));
                assert(mint_list@ =~= if wt > 0 {
                    mints_of(bs, winning, wt, lt)
                } else {
                    Seq::empty()
                });
                assert forall|a: int| reputation.locked(a) == pre_rep.locked(a)
                    - crate::stakes::ballots_staked_of(to_unstake(bs), a) by {
                    assert(mid_rep.locked(a) == pre_rep.locked(a)
                        - crate::stakes::ballots_staked_of(to_unstake(bs), a));
                    assert(reputation.stakes_storage.locked(a)
                        == mid_rep.stakes_storage.locked(a));
                }
                assert forall|a: int| reputation.bal(a) == pre_rep.bal(a)
                    - pays_of(burn_list@, a) + pays_of(mint_list@, a) by {
                    assert(mid_rep.bal(a) == pre_rep.bal(a));
                }
            }
        }

        let machine_snapshot = self.votings[v];
        self.votings[v].finish();
        proof {
            assert forall|u: int| 0 <= u < self.votings@.len() implies self.voting_wf(u) by {
                assert(old(self).voting_wf(u));
            }
        }
        let stats = *machine_snapshot.formal_stats();
        let unstakes =
            Self::tag_unstakes(&unstake_list, crate::voting_events::Reason::FormalFinished);
        let burns = Self::tag_pays(&burn_list, crate::voting_events::Reason::FormalLost);
        let mints = Self::tag_pays(&mint_list, crate::voting_events::Reason::FormalWon);
        let ended = VotingEnded::new(
            &machine_snapshot,
            result,
            &stats,
            unstakes,
            no_moves,
            burns,
            mints,
        );
        let summary = VotingSummary::new(result, VotingType::Formal, voting_id);
        Ok((summary, ended))
    }

    /// Finishes the round's phase at `block_time`: settles the
    /// informal or formal phase, depending on which one the round is
    /// accumulating.
    pub fn finish_voting(
        &mut self,
        reputation: &mut ReputationContract,
        voting_id: VotingId,
        voting_type: VotingType,
        block_time: BlockTime,
    ) -> (r: Result<(VotingSummary, VotingEnded), Error>)
        requires
            old(self).wf(),
            old(reputation).wf(),
        ensures
            final(self).wf(),
            final(reputation).wf(),
            Self::single_round_frame(*old(self), *final(self), voting_id as int),
            match r {
                Ok((summary, ended)) => {
                    &&& voting_id < old(self).votings@.len()
                    &&& old(self).votings@[voting_id as int].voting_type == voting_type
                    &&& match voting_type {
                        VotingType::Informal => informal_finish_ok(
                            *old(self),
                            *final(self),
                            *old(reputation),
                            *final(reputation),
                            voting_id,
                            block_time,
                            summary,
                            ended,
                        ),
                        VotingType::Formal => formal_finish_ok(
                            *old(self),
                            *final(self),
                            *old(reputation),
                            *final(reputation),
                            voting_id,
                            block_time,
                            summary,
                            ended,
                        ),
                    }
                },
                Err(e) => {
                    &&& (e == Error::VotingDoesNotExist
                        <==> voting_id >= old(self).votings@.len())
                    &&& finish_failure(
                        *old(self),
                        *old(reputation),
                        voting_id,
                        voting_type,
                        block_time,
                        e,
                    )
                },
            },
    {
        if (voting_id as usize) >= self.votings.len() {
            return Err(Error::VotingDoesNotExist);
        }
        let v = voting_id as usize;
        if self.votings[v].voting_type() != voting_type {
            return Err(Error::VotingWithGivenTypeNotInProgress);
        }
        match voting_type {
            VotingType::Informal => self.finish_informal(reputation, voting_id, block_time),
            VotingType::Formal => self.finish_formal(reputation, voting_id, block_time),
        }
    }
}



/// The stake account `voter` still has bound behind a non-canceled
/// ballot in `bs` (with unique voters: their one active bound stake).
pub open spec fn voter_active_bound_stake(bs: Seq<Ballot>, voter: Address) -> int
    decreases bs.len(),
{
    if bs.len() == 0 {
        0
    } else {
        voter_active_bound_stake(bs.drop_last(), voter)
            + if !bs.last().canceled && !bs.last().unbound && bs.last().voter == voter {
                bs.last().stake as int
            } else {
                0
            }
    }
}

/// The active bound stake is never negative.
pub proof fn lemma_vab_nonneg(bs: Seq<Ballot>, voter: Address)
    ensures
        voter_active_bound_stake(bs, voter) >= 0,
    decreases bs.len(),
{
    if bs.len() > 0 {
        lemma_vab_nonneg(bs.drop_last(), voter);
    }
}

/// With unique voters, the voter's one active bound ballot carries
/// their whole active bound stake.
pub proof fn lemma_vab_at(bs: Seq<Ballot>, i: int, voter: Address)
    requires
        forall|p: int, q: int| 0 <= p < q < bs.len()
            ==> (#[trigger] bs[p]).voter != (#[trigger] bs[q]).voter,
        0 <= i < bs.len(),
        bs[i].voter == voter,
        !bs[i].canceled,
        !bs[i].unbound,
    ensures
        voter_active_bound_stake(bs, voter) == bs[i].stake,
    decreases bs.len(),
{
    assert(forall|p: int| 0 <= p < bs.drop_last().len()
        ==> bs.drop_last()[p] == bs[p]);
    if i == bs.len() - 1 {
        lemma_vab_absent(bs.drop_last(), voter);
    } else {
        assert(bs[i].voter != bs[bs.len() - 1].voter);
        lemma_vab_at(bs.drop_last(), i, voter);
    }
}

/// An account without a non-canceled bound ballot has no active bound
/// stake.
pub proof fn lemma_vab_absent(bs: Seq<Ballot>, voter: Address)
    requires
        forall|p: int| 0 <= p < bs.len()
            ==> !(!(#[trigger] bs[p]).canceled && !bs[p].unbound && bs[p].voter == voter),
    ensures
        voter_active_bound_stake(bs, voter) == 0,
    decreases bs.len(),
{
    if bs.len() > 0 {
        assert(forall|p: int| 0 <= p < bs.drop_last().len()
            ==> bs.drop_last()[p] == bs[p]);
        lemma_vab_absent(bs.drop_last(), voter);
    }
}

/// Everything a successful slash of one voter in one round
/// guarantees: the ballots canceled, tallies reversed, and any bound
/// stakes released.
pub open spec fn slash_voter_ok(
    pre_e: VotingEngine,
    post_e: VotingEngine,
    pre_r: ReputationContract,
    post_r: ReputationContract,
    voter: Address,
    voting_id: VotingId,
    informal: Option<Ballot>,
    formal: Option<Ballot>,
) -> bool {
    let v = voting_id as int;
    &&& voting_id < pre_e.votings@.len()
    &&& cancel_phase_effect(pre_e.informal_of(v), post_e.informal_of(v), voter)
    &&& cancel_phase_effect(pre_e.formal_of(v), post_e.formal_of(v), voter)
    &&& (informal is Some ==> informal->0.voter == voter && !informal->0.canceled
        && pre_e.informal_of(v).contains(informal->0))
    &&& (formal is Some ==> formal->0.voter == voter && !formal->0.canceled
        && pre_e.formal_of(v).contains(formal->0))
    &&& (informal is None ==> !has_active_ballot(pre_e.informal_of(v), voter))
    &&& (formal is None ==> !has_active_ballot(pre_e.formal_of(v), voter))
    &&& post_r.locked(voter.0 as int) == pre_r.locked(voter.0 as int)
        - (if informal is Some && !informal->0.unbound {
            informal->0.stake as int
        } else {
            0
        })
        - (if formal is Some && !formal->0.unbound {
            formal->0.stake as int
        } else {
            0
        })
    &&& forall|a: int| a != voter.0 as int ==> post_r.locked(a) == pre_r.locked(a)
    &&& forall|a: int| post_r.bal(a) == pre_r.bal(a)
    &&& post_r.access_control == pre_r.access_control
}

/// A canceled copy of a ballot.
pub open spec fn canceled_ballot(b: Ballot) -> Ballot {
    Ballot { canceled: true, ..b }
}

/// Whether `voter` still has a non-canceled ballot in `bs`.
pub open spec fn has_active_ballot(bs: Seq<Ballot>, voter: Address) -> bool {
    exists|i: int| 0 <= i < bs.len() && (#[trigger] bs[i]).voter == voter && !bs[i].canceled
}

/// The shape slashing leaves a phase's ballot list in: every entry is
/// either untouched or the canceled copy of the voter's entry, and no
/// active ballot of the voter remains.
pub open spec fn cancel_phase_effect(pre: Seq<Ballot>, post: Seq<Ballot>, voter: Address) -> bool {
    &&& post.len() == pre.len()
    &&& forall|i: int| 0 <= i < pre.len()
        ==> (#[trigger] post[i]) == pre[i]
            || (pre[i].voter == voter && post[i] == canceled_ballot(pre[i]))
    &&& !has_active_ballot(post, voter)
}

/// A non-canceled ballot for `choice` makes the vote count positive.
pub proof fn lemma_count_votes_at(bs: Seq<Ballot>, i: int, choice: Choice)
    requires
        0 <= i < bs.len(),
        !bs[i].canceled,
        bs[i].choice == choice,
    ensures
        count_votes(bs, choice) >= 1,
    decreases bs.len(),
{
    lemma_tallies_nonneg(bs.drop_last(), choice);
    if i == bs.len() - 1 {
    } else {
        assert(bs.drop_last()[i] == bs[i]);
        lemma_count_votes_at(bs.drop_last(), i, choice);
    }
}

impl VotingEngine {
    /// Cancels the voter's non-canceled ballot in one phase of a
    /// round, if there is one: reverses its tally contribution and,
    /// for a bound ballot, releases the stake.
    fn cancel_in_phase(
        &mut self,
        reputation: &mut ReputationContract,
        voting_id: VotingId,
        phase: VotingType,
        voter: Address,
    ) -> (r: Result<Option<Ballot>, Error>)
        requires
            old(self).wf(),
            old(reputation).wf(),
            voting_id < old(self).votings@.len(),
        ensures
            final(self).wf(),
            final(reputation).wf(),
            Self::single_round_frame(*old(self), *final(self), voting_id as int),
            final(reputation).access_control == old(reputation).access_control,
            forall|a: int| final(reputation).bal(a) == old(reputation).bal(a),
            match phase {
                VotingType::Informal => final(self).formal_of(voting_id as int)
                    == old(self).formal_of(voting_id as int),
                VotingType::Formal => final(self).informal_of(voting_id as int)
                    == old(self).informal_of(voting_id as int),
            },
            final(self).votings@[voting_id as int].state
                == old(self).votings@[voting_id as int].state,
            final(self).votings@[voting_id as int].voting_type
                == old(self).votings@[voting_id as int].voting_type,
            final(self).votings@[voting_id as int].configuration
                == old(self).votings@[voting_id as int].configuration,
            final(self).votings@[voting_id as int].creator
                == old(self).votings@[voting_id as int].creator,
            final(self).votings@[voting_id as int].created_at
                == old(self).votings@[voting_id as int].created_at,
            match r {
                Ok(found) => {
                    let v = voting_id as int;
                    let pre_bs = old(self).ballots_of(v, phase);
                    let post_bs = final(self).ballots_of(v, phase);
                    &&& cancel_phase_effect(pre_bs, post_bs, voter)
                    &&& match found {
                        Some(b) => {
                            &&& b.voter == voter
                            &&& !b.canceled
                            &&& pre_bs.contains(b)
                            &&& (!b.unbound ==> {
                                &&& b.stake == voter_active_bound_stake(pre_bs, voter)
                                &&& final(reputation).locked(voter.0 as int)
                                    == old(reputation).locked(voter.0 as int) - b.stake
                                &&& forall|a: int| a != voter.0 as int
                                    ==> final(reputation).locked(a)
                                        == old(reputation).locked(a)
                            })
                            &&& (b.unbound ==> {
                                &&& voter_active_bound_stake(pre_bs, voter) == 0
                                &&& *final(reputation) == *old(reputation)
                            })
                        },
                        None => {
                            &&& !has_active_ballot(pre_bs, voter)
                            &&& voter_active_bound_stake(pre_bs, voter) == 0
                            &&& post_bs == pre_bs
                            &&& *final(reputation) == *old(reputation)
                        },
                    }
                },
                Err(e) => {
                    let pre_bs = old(self).ballots_of(voting_id as int, phase);
                    &&& ((e == Error::ZeroStake
                        && voter_active_bound_stake(pre_bs, voter)
                            > old(reputation).locked(voter.0 as int))
                        || (e == Error::NotWhitelisted
                            && !old(reputation).access_control.whitelist.contains_spec(
                            old(self).self_address,
                        )))
                    &&& *final(self) == *old(self)
                    &&& *final(reputation) == *old(reputation)
                },
            },
    {
        proof {
            assert(self.voting_wf(voting_id as int));
        }
        let v = voting_id as usize;
        let ghost pre_bs = self.ballots_of(v as int, phase);

        // Find the voter's non-canceled ballot, if any.
        let mut found: Option<usize> = None;
        let len = match phase {
            VotingType::Informal => self.informal_ballots[v].len(),
            VotingType::Formal => self.formal_ballots[v].len(),
        };
        let mut i: usize = 0;
        while i < len
            invariant
                self.wf(),
                voting_id < self.votings@.len(),
                v == voting_id as usize,
                len == pre_bs.len(),
                pre_bs == self.ballots_of(voting_id as int, phase),
                i <= len,
                found is None ==> forall|j: int| 0 <= j < i
                    ==> !((#[trigger] pre_bs[j]).voter == voter && !pre_bs[j].canceled),
                match found {
                    Some(k) => k < i && pre_bs[k as int].voter == voter
                        && !pre_bs[k as int].canceled,
                    None => true,
                },
            decreases len - i,
        {
            if found.is_none() {
                let b = match phase {
                    VotingType::Informal => self.informal_ballots[v][i],
                    VotingType::Formal => self.formal_ballots[v][i],
                };
                if b.voter == voter && !b.canceled {
                    found = Some(i);
                }
            }
            i += 1;
        }

        let idx = match found {
            Some(k) => k,
            None => {
                proof {
                    assert(!has_active_ballot(pre_bs, voter));
                    lemma_vab_absent(pre_bs, voter);
                }
                return Ok(None);
            }
        };
        let ballot = match phase {
            VotingType::Informal => self.informal_ballots[v][idx],
            VotingType::Formal => self.formal_ballots[v][idx],
        };

        // Release the stake first; the host discards everything on error.
        proof {
            assert(self.voting_wf(voting_id as int));
            if !ballot.unbound {
                lemma_vab_at(pre_bs, idx as int, voter);
            } else {
                assert forall|p: int| 0 <= p < pre_bs.len()
                    implies !(!(#[trigger] pre_bs[p]).canceled && !pre_bs[p].unbound
                        && pre_bs[p].voter == voter) by {
                    if p != idx as int {
                        assert(pre_bs[p].voter != pre_bs[idx as int].voter);
                    }
                }
                lemma_vab_absent(pre_bs, voter);
            }
        }
        if !ballot.unbound {
            let caller = self.self_address;
            let released = reputation.unstake_voting(
                caller,
                voting_id,
                ShortenedBallot { voter: ballot.voter, stake: ballot.stake },
            );
            if let Err(e) = released {
                return Err(e);
            }
        }

        // Cancel the ballot and reverse its tally contribution.
        let mut replacement = ballot;
        replacement.canceled = true;
        proof {
            lemma_tallies_update(pre_bs, idx as int, replacement, Choice::InFavor);
            lemma_tallies_update(pre_bs, idx as int, replacement, Choice::Against);
            if !ballot.unbound {
                lemma_tally_bound_at(pre_bs, idx as int, ballot.choice);
            } else {
                lemma_tally_unbound_at(pre_bs, idx as int, ballot.choice);
            }
            lemma_count_votes_at(pre_bs, idx as int, ballot.choice);
            lemma_tallies_nonneg(pre_bs, Choice::InFavor);
            lemma_tallies_nonneg(pre_bs, Choice::Against);
        }
        match phase {
            VotingType::Informal => self.informal_ballots[v].set(idx, replacement),
            VotingType::Formal => self.formal_ballots[v].set(idx, replacement),
        }
        let old_stats = match phase {
            VotingType::Informal => *self.votings[v].informal_stats(),
            VotingType::Formal => *self.votings[v].formal_stats(),
        };
        let new_stats = Stats {
            stake_in_favor: if !ballot.unbound && ballot.choice == Choice::InFavor {
                old_stats.stake_in_favor - ballot.stake
            } else {
                old_stats.stake_in_favor
            },
            stake_against: if !ballot.unbound && ballot.choice == Choice::Against {
                old_stats.stake_against - ballot.stake
            } else {
                old_stats.stake_against
            },
            unbound_stake_in_favor: if ballot.unbound && ballot.choice == Choice::InFavor {
                old_stats.unbound_stake_in_favor - ballot.stake
            } else {
                old_stats.unbound_stake_in_favor
            },
            unbound_stake_against: if ballot.unbound && ballot.choice == Choice::Against {
                old_stats.unbound_stake_against - ballot.stake
            } else {
                old_stats.unbound_stake_against
            },
            votes_in_favor: if ballot.choice == Choice::InFavor {
                old_stats.votes_in_favor - 1
            } else {
                old_stats.votes_in_favor
            },
            votes_against: if ballot.choice == Choice::Against {
                old_stats.votes_against - 1
            } else {
                old_stats.votes_against
            },
        };
        match phase {
            VotingType::Informal => self.votings[v].informal_stats = new_stats,
            VotingType::Formal => self.votings[v].formal_stats = new_stats,
        }
        proof {
            assert(self.ballots_of(voting_id as int, phase)
                =~= pre_bs.update(idx as int, replacement));
            assert forall|u: int| 0 <= u < self.votings@.len() implies self.voting_wf(u) by {
                assert(old(self).voting_wf(u));
            }
            assert(pre_bs[idx as int] == ballot);
            assert forall|j: int| 0 <= j < self.ballots_of(voting_id as int, phase).len()
                implies !((#[trigger] self.ballots_of(voting_id as int, phase)[j]).voter
                    == voter && !self.ballots_of(voting_id as int, phase)[j].canceled) by {
                assert(old(self).voting_wf(voting_id as int));
                if j != idx as int {
                    assert(pre_bs[j] == self.ballots_of(voting_id as int, phase)[j]);
                    if pre_bs[j].voter == voter && !pre_bs[j].canceled {
                        assert(pre_bs[j].voter != pre_bs[idx as int].voter);
                    }
                }
            }
        }
        Ok(Some(ballot))
    }

    /// Slashes a voter in one round: cancels their ballots in both
    /// phases, reverses the tally contributions, and releases any
    /// bound stakes. Returns the canceled ballots.
    pub fn slash_voter(
        &mut self,
        reputation: &mut ReputationContract,
        voter: Address,
        voting_id: VotingId,
    ) -> (r: Result<(Option<Ballot>, Option<Ballot>), Error>)
        requires
            old(self).wf(),
            old(reputation).wf(),
        ensures
            final(self).wf(),
            final(reputation).wf(),
            Self::single_round_frame(*old(self), *final(self), voting_id as int),
            forall|a: int| final(reputation).bal(a) == old(reputation).bal(a),
            match r {
                Ok((informal, formal)) => slash_voter_ok(
                    *old(self),
                    *final(self),
                    *old(reputation),
                    *final(reputation),
                    voter,
                    voting_id,
                    informal,
                    formal,
                ),
                Err(e) => {
                    &&& (e == Error::VotingDoesNotExist
                        <==> voting_id >= old(self).votings@.len())
                    &&& slash_failure(
                        *old(self),
                        *old(reputation),
                        voter,
                        voting_id,
                        e,
                    )
                },
            },
    {
        if (voting_id as usize) >= self.votings.len() {
            return Err(Error::VotingDoesNotExist);
        }
        proof {
            lemma_vab_nonneg(
                self.informal_of(voting_id as int),
                voter,
            );
            lemma_vab_nonneg(
                self.formal_of(voting_id as int),
                voter,
            );
        }
        let informal = self.cancel_in_phase(reputation, voting_id, VotingType::Informal, voter);
        let informal_ballot = match informal {
            Ok(b) => b,
            Err(e) => {
                return Err(e);
            }
        };
        let formal = self.cancel_in_phase(reputation, voting_id, VotingType::Formal, voter);
        let formal_ballot = match formal {
            Ok(b) => b,
            Err(e) => {
                return Err(e);
            }
        };
        Ok((informal_ballot, formal_ballot))
    }
}


} // verus!
