//! Events the voting engine reports to the host: ballots cast or
//! canceled, rounds created, and the full settlement of a finished
//! round.

use vstd::prelude::*;

verus! {

use crate::ballot::Ballot;
use crate::ballot::Choice;
use crate::configuration::Configuration;
use crate::types::Address;
use crate::types::Balance;
use crate::types::BlockTime;
use crate::types::VotingId;
use crate::voting_state_machine::Stats;
use crate::voting_state_machine::VotingResult;
use crate::voting_state_machine::VotingStateMachine;
use crate::voting_state_machine::VotingType;

/// The reason reputation was staked, unstaked, burned or minted.
#[derive(Clone, Copy, PartialEq, Eq, Structural, Debug)]
pub enum Reason {
    /// The informal phase finished.
    InformalFinished,
    /// The voting process finished.
    FormalFinished,
    /// The voting process finished; the voters voted in favor.
    FormalWon,
    /// The voting process finished; the voters voted against.
    FormalLost,
}

/// A ballot was cast.
#[derive(Clone, Copy, PartialEq, Eq, Structural, Debug)]
pub struct BallotCast {
    /// The voter's account.
    pub voter: Address,
    /// The voting round.
    pub voting_id: VotingId,
    /// The phase the ballot was cast in.
    pub voting_type: VotingType,
    /// The selected option.
    pub choice: Choice,
    /// Vote power.
    pub stake: Balance,
}

impl BallotCast {
    /// Builds the event from a ballot.
    pub fn new(ballot: &Ballot) -> (r: Self)
        ensures
            r == (BallotCast {
                voter: ballot.voter,
                voting_id: ballot.voting_id,
                voting_type: ballot.voting_type,
                choice: ballot.choice,
                stake: ballot.stake,
            }),
    {
        BallotCast {
            voter: ballot.voter,
            voting_id: ballot.voting_id,
            voting_type: ballot.voting_type,
            choice: ballot.choice,
            stake: ballot.stake,
        }
    }
}

/// A ballot was canceled during slashing.
#[derive(Clone, Copy, PartialEq, Eq, Structural, Debug)]
pub struct BallotCanceled {
    /// The voter's account.
    pub voter: Address,
    /// The voting round.
    pub voting_id: VotingId,
    /// The phase the ballot was cast in.
    pub voting_type: VotingType,
    /// The selected option.
    pub choice: Choice,
    /// Vote power.
    pub stake: Balance,
}

impl BallotCanceled {
    /// Builds the event from a ballot.
    pub fn new(ballot: &Ballot) -> (r: Self)
        ensures
            r == (BallotCanceled {
                voter: ballot.voter,
                voting_id: ballot.voting_id,
                voting_type: ballot.voting_type,
                choice: ballot.choice,
                stake: ballot.stake,
            }),
    {
        BallotCanceled {
            voter: ballot.voter,
            voting_id: ballot.voting_id,
            voting_type: ballot.voting_type,
            choice: ballot.choice,
            stake: ballot.stake,
        }
    }
}

/// A voting round was created; carries the configuration values the
/// round was frozen with.
#[derive(Clone, Copy, PartialEq, Eq, Structural, Debug)]
pub struct VotingCreatedInfo {
    /// The creator's account.
    pub creator: Address,
    /// The creator's first stake, if a first ballot was cast.
    pub stake: Option<Balance>,
    /// The new round.
    pub voting_id: VotingId,
    /// Quorum of the informal phase.
    pub config_informal_quorum: u32,
    /// Length of the informal phase.
    pub config_informal_voting_time: u64,
    /// Quorum of the formal phase.
    pub config_formal_quorum: u32,
    /// Length of the formal phase.
    pub config_formal_voting_time: u64,
    /// Number of onboarded voting associates at snapshot time.
    pub config_total_onboarded: u64,
    /// Whether the pause before the formal phase was doubled.
    pub config_double_time_between_votings: bool,
    /// Closeness threshold of the round.
    pub config_voting_clearness_delta: u64,
    /// Pause between the two phases.
    pub config_time_between_informal_and_formal_voting: BlockTime,
}

impl VotingCreatedInfo {
    /// Builds the event from the frozen configuration.
    pub fn new(
        creator: Address,
        voting_id: VotingId,
        stake: Option<Balance>,
        config: &Configuration,
    ) -> (r: Self)
        ensures
            r == (VotingCreatedInfo {
                creator,
                stake,
                voting_id,
                config_informal_quorum: config.informal_voting_quorum,
                config_informal_voting_time: config.informal_voting_time,
                config_formal_quorum: config.formal_voting_quorum,
                config_formal_voting_time: config.formal_voting_time,
                config_total_onboarded: config.total_onboarded,
                config_double_time_between_votings: config.time_between_votings_doubled,
                config_voting_clearness_delta: config.voting_clearness_delta,
                config_time_between_informal_and_formal_voting:
                    config.time_between_informal_and_formal_voting,
            }),
    {
        Self {
            creator,
            stake,
            voting_id,
            config_informal_quorum: config.informal_voting_quorum,
            config_informal_voting_time: config.informal_voting_time,
            config_formal_quorum: config.formal_voting_quorum,
            config_formal_voting_time: config.formal_voting_time,
            config_total_onboarded: config.total_onboarded,
            config_double_time_between_votings: config.time_between_votings_doubled,
            config_voting_clearness_delta: config.voting_clearness_delta,
            config_time_between_informal_and_formal_voting:
                config.time_between_informal_and_formal_voting,
        }
    }
}

/// A voting phase ended: the result, the final tallies, and every
/// ledger movement of the settlement, each tagged with its reason.
#[derive(Clone, PartialEq, Eq, Debug)]
pub struct VotingEnded {
    /// The settled round.
    pub voting_id: VotingId,
    /// The phase that ended.
    pub voting_type: VotingType,
    /// The result of the phase.
    pub voting_result: VotingResult,
    /// Final bound in-favor stake.
    pub stake_in_favor: Balance,
    /// Final bound against stake.
    pub stake_against: Balance,
    /// Final unbound in-favor stake.
    pub unbound_stake_in_favor: Balance,
    /// Final unbound against stake.
    pub unbound_stake_against: Balance,
    /// Number of accounts that voted in favor.
    pub votes_in_favor: u32,
    /// Number of accounts that voted against.
    pub votes_against: u32,
    /// Stakes released back to their owners.
    pub unstakes: Vec<(Address, Reason, Balance)>,
    /// Stakes newly locked.
    pub stakes: Vec<(Address, Reason, Balance)>,
    /// Reputation burned from the losing side.
    pub burns: Vec<(Address, Reason, Balance)>,
    /// Reputation minted for the winning side.
    pub mints: Vec<(Address, Reason, Balance)>,
}

impl VotingEnded {
    /// Builds the event from the final machine state and the settlement
    /// movements.
    pub fn new(
        voting: &VotingStateMachine,
        voting_result: VotingResult,
        stats: &Stats,
        unstakes: Vec<(Address, Reason, Balance)>,
        stakes: Vec<(Address, Reason, Balance)>,
        burns: Vec<(Address, Reason, Balance)>,
        mints: Vec<(Address, Reason, Balance)>,
    ) -> (r: Self)
        ensures
            r.voting_id == voting.voting_id,
            r.voting_type == voting.voting_type,
            r.voting_result == voting_result,
            r.stake_in_favor == stats.stake_in_favor,
            r.stake_against == stats.stake_against,
            r.unbound_stake_in_favor == stats.unbound_stake_in_favor,
            r.unbound_stake_against == stats.unbound_stake_against,
            r.votes_in_favor == stats.votes_in_favor,
            r.votes_against == stats.votes_against,
            r.unstakes == unstakes,
            r.stakes == stakes,
            r.burns == burns,
            r.mints == mints,
    {
        Self {
            voting_id: voting.voting_id(),
            voting_type: voting.voting_type(),
            voting_result,
            stake_in_favor: stats.stake_in_favor,
            stake_against: stats.stake_against,
            unbound_stake_in_favor: stats.unbound_stake_in_favor,
            unbound_stake_against: stats.unbound_stake_against,
            votes_in_favor: stats.votes_in_favor,
            votes_against: stats.votes_against,
            unstakes,
            stakes,
            burns,
            mints,
        }
    }
}

/// The cancellation reports a slash produces: one event per canceled
/// ballot, informal first.
pub open spec fn cancel_events(
    informal: Option<Ballot>,
    formal: Option<Ballot>,
) -> Seq<BallotCanceled> {
    (match informal {
        Some(b) => seq![
            BallotCanceled {
                voter: b.voter,
                voting_id: b.voting_id,
                voting_type: b.voting_type,
                choice: b.choice,
                stake: b.stake,
            },
        ],
        None => Seq::empty(),
    }) + (match formal {
        Some(b) => seq![
            BallotCanceled {
                voter: b.voter,
                voting_id: b.voting_id,
                voting_type: b.voting_type,
                choice: b.choice,
                stake: b.stake,
            },
        ],
        None => Seq::empty(),
    })
}

/// A whole voting round was canceled during full slashing.
#[derive(Clone, PartialEq, Eq, Debug)]
pub struct VotingCanceled {
    /// The canceled round.
    pub voting_id: VotingId,
    /// The phase the round was in.
    pub voting_type: VotingType,
    /// The voters' released stakes.
    pub unstakes: Vec<(Address, Balance)>,
}

impl VotingCanceled {
    /// Builds the event.
    pub fn new(
        voting_id: VotingId,
        voting_type: VotingType,
        unstakes: Vec<(Address, Balance)>,
    ) -> (r: Self)
        ensures
            r.voting_id == voting_id,
            r.voting_type == voting_type,
            r.unstakes == unstakes,
    {
        Self { voting_id, voting_type, unstakes }
    }
}

} // verus!
