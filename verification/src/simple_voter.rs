//! The simple voter: governance rounds over a document hash, with no
//! on-chain action attached.

use vstd::prelude::*;

verus! {

use crate::access_control::AccessControl;
use crate::ballot::Choice;
use crate::configuration::Configuration;
use crate::configuration::TIME_BOUND;
use crate::errors::Error;
use crate::reputation::ReputationContract;
use crate::types::Address;
use crate::types::Balance;
use crate::types::BlockTime;
use crate::types::DocumentHash;
use crate::types::VotingId;
use crate::voting_engine::VotingEngine;
use crate::voting_events::VotingCreatedInfo;
use crate::voting_state_machine::VotingSummary;
use crate::voting_state_machine::VotingType;

/// A simple round was created.
#[derive(Clone, Copy, PartialEq, Eq, Structural, Debug)]
pub struct SimpleVotingCreated {
    /// The document being voted on.
    pub document_hash: DocumentHash,
    /// The creation report of the underlying round.
    pub info: VotingCreatedInfo,
}

impl SimpleVotingCreated {
    /// Builds the event.
    pub fn new(document_hash: DocumentHash, info: VotingCreatedInfo) -> (r: Self)
        ensures
            r == (SimpleVotingCreated { document_hash, info }),
    {
        Self { document_hash, info }
    }
}

/// Governance rounds that decide on a document, nothing more.
#[derive(Clone, PartialEq, Eq, Debug)]
pub struct SimpleVoterContract {
    /// The underlying voting engine.
    pub voting_engine: VotingEngine,
    /// Owner and whitelist.
    pub access_control: AccessControl,
    /// The document of each round, in creation order.
    pub simple_votings: Vec<(VotingId, DocumentHash)>,
}

impl SimpleVoterContract {
    /// Creates the contract.
    pub fn new(self_address: Address, deployer: Address) -> (r: Self)
        ensures
            r.voting_engine.wf(),
            r.voting_engine.self_address == self_address,
            r.access_control.owner.owner == Some(deployer),
    {
        let mut access_control = AccessControl::new();
        access_control.init(deployer);
        SimpleVoterContract {
            voting_engine: VotingEngine::new(self_address),
            access_control,
            simple_votings: Vec::new(),
        }
    }

    /// Creates a simple round over a document.
    pub fn create_voting(
        &mut self,
        reputation: &mut ReputationContract,
        caller: Address,
        caller_is_va: bool,
        document_hash: DocumentHash,
        stake: Balance,
        configuration: Configuration,
        block_time: BlockTime,
    ) -> (r: Result<SimpleVotingCreated, Error>)
        requires
            old(self).voting_engine.wf(),
            old(reputation).wf(),
            configuration.wf(),
            !configuration.time_between_votings_doubled,
            block_time <= TIME_BOUND,
        ensures
            final(self).voting_engine.wf(),
            final(reputation).wf(),
            final(self).access_control == old(self).access_control,
            match r {
                Ok(event) => {
                    &&& event.document_hash == document_hash
                    &&& event.info.creator == caller
                    &&& event.info.voting_id == old(self).voting_engine.votings@.len()
                    &&& final(self).voting_engine.votings@.len()
                        == old(self).voting_engine.votings@.len() + 1
                    &&& final(self).simple_votings@ == old(self).simple_votings@.push(
                        (event.info.voting_id, document_hash),
                    )
                },
                Err(e) => final(self).simple_votings == old(self).simple_votings,
            },
    {
        let created = self.voting_engine.create_voting(
            reputation,
            caller,
            caller_is_va,
            stake,
            configuration,
            block_time,
        );
        let info = match created {
            Ok(info) => info,
            Err(e) => {
                return Err(e);
            }
        };
        self.simple_votings.push((info.voting_id, document_hash));
        Ok(SimpleVotingCreated::new(document_hash, info))
    }

    /// Gets the document a round is about.
    pub fn get_document_hash(&self, voting_id: VotingId) -> (r: Option<DocumentHash>)
        ensures
            match r {
                Some(h) => exists|t: int| 0 <= t < self.simple_votings@.len()
                    && (#[trigger] self.simple_votings@[t]) == (voting_id, h),
                None => forall|t: int| 0 <= t < self.simple_votings@.len()
                    ==> (#[trigger] self.simple_votings@[t]).0 != voting_id,
            },
    {
        let mut i: usize = 0;
        while i < self.simple_votings.len()
            invariant
                i <= self.simple_votings@.len(),
                forall|t: int| 0 <= t < i
                    ==> (#[trigger] self.simple_votings@[t]).0 != voting_id,
            decreases self.simple_votings@.len() - i,
        {
            let entry = self.simple_votings[i];
            if entry.0 == voting_id {
                proof {
                    assert(self.simple_votings@[i as int] == (voting_id, entry.1));
                }
                return Some(entry.1);
            }
            i += 1;
        }
        None
    }

    /// Casts a ballot in a simple round.
    pub fn vote(
        &mut self,
        reputation: &mut ReputationContract,
        caller: Address,
        voting_id: VotingId,
        voting_type: VotingType,
        choice: Choice,
        stake: Balance,
        block_time: BlockTime,
    ) -> (r: Result<crate::voting_events::BallotCast, Error>)
        requires
            old(self).voting_engine.wf(),
            old(reputation).wf(),
        ensures
            final(self).voting_engine.wf(),
            final(reputation).wf(),
            final(self).access_control == old(self).access_control,
            final(self).simple_votings == old(self).simple_votings,
            match r {
                Ok(cast) => cast == (crate::voting_events::BallotCast {
                    voter: caller,
                    voting_id,
                    voting_type,
                    choice,
                    stake,
                }) && VotingEngine::cast_effect(
                    old(self).voting_engine,
                    final(self).voting_engine,
                    *old(reputation),
                    *final(reputation),
                    caller,
                    voting_id,
                    choice,
                    stake,
                    old(self).voting_engine.votings@[
                        voting_id as int
                    ].is_informal_without_stake_spec(),
                ),
                Err(e) => final(self).voting_engine == old(self).voting_engine
                    && *final(reputation) == *old(reputation)
                    && crate::voting_engine::vote_failure(
                    old(self).voting_engine,
                    *old(reputation),
                    caller,
                    voting_id,
                    voting_type,
                    stake,
                    block_time,
                    e,
                ),
            },
    {
        self.voting_engine.vote(
            reputation,
            caller,
            voting_id,
            voting_type,
            choice,
            stake,
            block_time,
        )
    }

    /// Finishes a simple round's phase.
    pub fn finish_voting(
        &mut self,
        reputation: &mut ReputationContract,
        voting_id: VotingId,
        voting_type: VotingType,
        block_time: BlockTime,
    ) -> (r: Result<(VotingSummary, crate::voting_events::VotingEnded), Error>)
        requires
            old(self).voting_engine.wf(),
            old(reputation).wf(),
        ensures
            final(self).voting_engine.wf(),
            final(reputation).wf(),
            final(self).access_control == old(self).access_control,
            final(self).simple_votings == old(self).simple_votings,
            match r {
                Ok((summary, ended)) => summary.voting_id == voting_id
                    && summary.ty == voting_type
                    && match voting_type {
                        VotingType::Informal => crate::voting_engine::informal_finish_ok(
                            old(self).voting_engine,
                            final(self).voting_engine,
                            *old(reputation),
                            *final(reputation),
                            voting_id,
                            block_time,
                            summary,
                            ended,
                        ),
                        VotingType::Formal => crate::voting_engine::formal_finish_ok(
                            old(self).voting_engine,
                            final(self).voting_engine,
                            *old(reputation),
                            *final(reputation),
                            voting_id,
                            block_time,
                            summary,
                            ended,
                        ),
                    },
                Err(e) => crate::voting_engine::finish_failure(
                    old(self).voting_engine,
                    *old(reputation),
                    voting_id,
                    voting_type,
                    block_time,
                    e,
                ),
            },
    {
        self.voting_engine.finish_voting(reputation, voting_id, voting_type, block_time)
    }

    /// Slashes a voter in a simple round: cancels their ballots in
    /// both phases, reverses the tallies and releases any bound
    /// stakes. Only whitelisted callers. Returns the cancellations.
    pub fn slash_voter(
        &mut self,
        reputation: &mut ReputationContract,
        caller: Address,
        voter: Address,
        voting_id: VotingId,
    ) -> (r: Result<Vec<crate::voting_events::BallotCanceled>, Error>)
        requires
            old(self).voting_engine.wf(),
            old(reputation).wf(),
        ensures
            final(self).voting_engine.wf(),
            final(reputation).wf(),
            final(self).access_control == old(self).access_control,
            final(self).simple_votings == old(self).simple_votings,
            match r {
                Ok(events) => exists|informal: Option<crate::ballot::Ballot>,
                    formal: Option<crate::ballot::Ballot>|
                    {
                        &&& crate::voting_engine::slash_voter_ok(
                            old(self).voting_engine,
                            final(self).voting_engine,
                            *old(reputation),
                            *final(reputation),
                            voter,
                            voting_id,
                            informal,
                            formal,
                        )
                        &&& events@ =~= crate::voting_events::cancel_events(
                            informal,
                            formal,
                        )
                    },
                Err(e) => (e == Error::NotWhitelisted
                    && !old(self).access_control.whitelist.contains_spec(caller))
                    || crate::voting_engine::slash_failure(
                    old(self).voting_engine,
                    *old(reputation),
                    voter,
                    voting_id,
                    e,
                ),
            },
    {
        let allowed = self.access_control.ensure_whitelisted(caller);
        if let Err(e) = allowed {
            return Err(e);
        }
        let slashed = self.voting_engine.slash_voter(reputation, voter, voting_id);
        let (informal, formal) = match slashed {
            Ok(pair) => pair,
            Err(e) => {
                return Err(e);
            }
        };
        let mut events: Vec<crate::voting_events::BallotCanceled> = Vec::new();
        if let Some(ballot) = informal {
            events.push(crate::voting_events::BallotCanceled::new(&ballot));
        }
        if let Some(ballot) = formal {
            events.push(crate::voting_events::BallotCanceled::new(&ballot));
        }
        proof {
            assert(events@ =~= crate::voting_events::cancel_events(informal, formal));
        }
        Ok(events)
    }
}

} // verus!
