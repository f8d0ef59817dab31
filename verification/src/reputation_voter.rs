//! The reputation voter: governance rounds that mint or burn an
//! account's reputation. A passed formal round performs the action on
//! the reputation contract.

use vstd::prelude::*;

verus! {

use crate::access_control::AccessControl;
use crate::ballot::Choice;
use crate::configuration::Configuration;
use crate::configuration::TIME_BOUND;
use crate::contract_call::CallArgValue;
use crate::contract_call::CallArgs;
use crate::errors::Error;
use crate::reputation::ReputationContract;
use crate::types::Address;
use crate::types::Balance;
use crate::types::BlockTime;
use crate::types::DocumentHash;
use crate::types::VotingId;
use crate::voting_engine::VotingEngine;
use crate::voting_events::VotingCreatedInfo;
use crate::voting_state_machine::VotingResult;
use crate::voting_state_machine::VotingSummary;
use crate::voting_state_machine::VotingType;

/// The action a reputation round performs on the target account.
#[derive(Clone, Copy, PartialEq, Eq, Structural, Debug)]
pub enum Action {
    /// Burn reputation of the account.
    Burn,
    /// Mint reputation for the account.
    Mint,
}

impl Action {
    /// The reputation contract entry point the action invokes.
    pub fn entrypoint(&self) -> (r: &'static str)
        ensures
            r == match *self {
                Action::Burn => "burn",
                Action::Mint => "mint",
            },
    {
        match self {
            Action::Burn => "burn",
            Action::Mint => "mint",
        }
    }

    /// The entry point's named arguments.
    pub fn call_args(&self, account: Address, amount: Balance) -> (r: CallArgs)
        ensures
            r.args@.len() == 2,
            r.args@[1] == ("amount", CallArgValue::Amount(amount)),
            *self == Action::Burn ==> r.args@[0] == ("owner", CallArgValue::Account(account)),
            *self == Action::Mint
                ==> r.args@[0] == ("recipient", CallArgValue::Account(account)),
    {
        match self {
            Action::Burn => {
                let mut call_args = CallArgs::new();
                call_args.insert("owner", CallArgValue::Account(account));
                call_args.insert("amount", CallArgValue::Amount(amount));
                call_args
            }
            Action::Mint => {
                let mut call_args = CallArgs::new();
                call_args.insert("recipient", CallArgValue::Account(account));
                call_args.insert("amount", CallArgValue::Amount(amount));
                call_args
            }
        }
    }
}

/// A reputation round was created.
#[derive(Clone, Copy, PartialEq, Eq, Structural, Debug)]
pub struct ReputationVotingCreated {
    /// The account whose reputation is at stake.
    pub account: Address,
    /// Mint or burn.
    pub action: Action,
    /// The amount to mint or burn.
    pub amount: Balance,
    /// The document motivating the round.
    pub document_hash: DocumentHash,
    /// The creation report of the underlying round.
    pub info: VotingCreatedInfo,
}

impl ReputationVotingCreated {
    /// Builds the event.
    pub fn new(
        account: Address,
        action: Action,
        amount: Balance,
        document_hash: DocumentHash,
        info: VotingCreatedInfo,
    ) -> (r: Self)
        ensures
            r == (ReputationVotingCreated { account, action, amount, document_hash, info }),
    {
        Self { account, action, amount, document_hash, info }
    }
}

/// Governance rounds over minting and burning reputation.
#[derive(Clone, PartialEq, Eq, Debug)]
pub struct ReputationVoterContract {
    /// The underlying voting engine.
    pub voting_engine: VotingEngine,
    /// Owner and whitelist.
    pub access_control: AccessControl,
    /// The pending action of each round, in creation order.
    pub tasks: Vec<(VotingId, Address, Action, Balance)>,
}

impl ReputationVoterContract {
    /// Creates the contract.
    pub fn new(self_address: Address, deployer: Address) -> (r: Self)
        ensures
            r.voting_engine.wf(),
            r.voting_engine.self_address == self_address,
            r.access_control.owner.owner == Some(deployer),
    {
        let mut access_control = AccessControl::new();
        access_control.init(deployer);
        ReputationVoterContract {
            voting_engine: VotingEngine::new(self_address),
            access_control,
            tasks: Vec::new(),
        }
    }

    /// Creates a reputation round; the pending mint or burn is
    /// recorded against the new round's identifier.
    pub fn create_voting(
        &mut self,
        reputation: &mut ReputationContract,
        caller: Address,
        caller_is_va: bool,
        account: Address,
        action: Action,
        amount: Balance,
        document_hash: DocumentHash,
        stake: Balance,
        configuration: Configuration,
        block_time: BlockTime,
    ) -> (r: Result<ReputationVotingCreated, Error>)
        requires
            old(self).voting_engine.wf(),
            old(reputation).wf(),
            configuration.wf(),
            !configuration.time_between_votings_doubled,
            block_time <= TIME_BOUND,
        ensures
            final(self).voting_engine.wf(),
            final(reputation).wf(),
            final(self).access_control == old(self).access_control,
            match r {
                Ok(event) => {
                    &&& event.account == account
                    &&& event.action == action
                    &&& event.amount == amount
                    &&& event.document_hash == document_hash
                    &&& event.info.creator == caller
                    &&& event.info.voting_id == old(self).voting_engine.votings@.len()
                    &&& final(self).voting_engine.votings@.len()
                        == old(self).voting_engine.votings@.len() + 1
                    &&& final(self).tasks@ == old(self).tasks@.push(
                        (event.info.voting_id, account, action, amount),
                    )
                },
                Err(e) => final(self).tasks == old(self).tasks,
            },
    {
        let created = self.voting_engine.create_voting(
            reputation,
            caller,
            caller_is_va,
            stake,
            configuration,
            block_time,
        );
        let info = match created {
            Ok(info) => info,
            Err(e) => {
                return Err(e);
            }
        };
        self.tasks.push((info.voting_id, account, action, amount));
        Ok(ReputationVotingCreated::new(account, action, amount, document_hash, info))
    }

    /// Casts a ballot in a reputation round.
    pub fn vote(
        &mut self,
        reputation: &mut ReputationContract,
        caller: Address,
        voting_id: VotingId,
        voting_type: VotingType,
        choice: Choice,
        stake: Balance,
        block_time: BlockTime,
    ) -> (r: Result<crate::voting_events::BallotCast, Error>)
        requires
            old(self).voting_engine.wf(),
            old(reputation).wf(),
        ensures
            final(self).voting_engine.wf(),
            final(reputation).wf(),
            final(self).access_control == old(self).access_control,
            final(self).tasks == old(self).tasks,
            match r {
                Ok(cast) => cast == (crate::voting_events::BallotCast {
                    voter: caller,
                    voting_id,
                    voting_type,
                    choice,
                    stake,
                }) && VotingEngine::cast_effect(
                    old(self).voting_engine,
                    final(self).voting_engine,
                    *old(reputation),
                    *final(reputation),
                    caller,
                    voting_id,
                    choice,
                    stake,
                    old(self).voting_engine.votings@[
                        voting_id as int
                    ].is_informal_without_stake_spec(),
                ),
                Err(e) => final(self).voting_engine == old(self).voting_engine
                    && *final(reputation) == *old(reputation)
                    && crate::voting_engine::vote_failure(
                    old(self).voting_engine,
                    *old(reputation),
                    caller,
                    voting_id,
                    voting_type,
                    stake,
                    block_time,
                    e,
                ),
            },
    {
        self.voting_engine.vote(
            reputation,
            caller,
            voting_id,
            voting_type,
            choice,
            stake,
            block_time,
        )
    }

    /// Finishes a reputation round's phase: the underlying round
    /// settles exactly as the engine's phase settlement states. A
    /// formal phase that passes performs the recorded mint or burn on
    /// the reputation contract and reports it back.
    pub fn finish_voting(
        &mut self,
        reputation: &mut ReputationContract,
        voting_id: VotingId,
        voting_type: VotingType,
        block_time: BlockTime,
    ) -> (r: Result<(VotingSummary, Option<(Address, Action, Balance)>), Error>)
        requires
            old(self).voting_engine.wf(),
            old(reputation).wf(),
        ensures
            final(self).voting_engine.wf(),
            final(reputation).reputation_storage.wf(),
            final(reputation).passive_reputation_storage.wf(),
            // A performed governance burn may cut into an account's
            // locked stake; every other outcome keeps the lock bound.
            match r {
                Ok((summary, action)) => (action is Some && (action->0).1 == Action::Burn)
                    || final(reputation).wf(),
                Err(e) => final(reputation).wf(),
            },
            final(self).access_control == old(self).access_control,
            final(self).tasks == old(self).tasks,
            match r {
                Ok((summary, action)) => {
                    let bs = old(self).voting_engine.ballots_of(
                        voting_id as int,
                        voting_type,
                    );
                    let result = old(self).voting_engine.votings@[
                        voting_id as int
                    ].get_result_spec(bs.len() as u32);
                    &&& summary.voting_id == voting_id
                    &&& summary.ty == voting_type
                    &&& summary.result == result
                    &&& (action is Some <==> voting_type == VotingType::Formal
                        && result == VotingResult::InFavor
                        && (exists|t: int| 0 <= t < old(self).tasks@.len()
                            && (#[trigger] old(self).tasks@[t]).0 == voting_id))
                    &&& (action is None ==> exists|
                        ended: crate::voting_events::VotingEnded,
                    |
                        match voting_type {
                            VotingType::Informal => crate::voting_engine::informal_finish_ok(
                                old(self).voting_engine,
                                final(self).voting_engine,
                                *old(reputation),
                                *final(reputation),
                                voting_id,
                                block_time,
                                summary,
                                ended,
                            ),
                            VotingType::Formal => crate::voting_engine::formal_finish_ok(
                                old(self).voting_engine,
                                final(self).voting_engine,
                                *old(reputation),
                                *final(reputation),
                                voting_id,
                                block_time,
                                summary,
                                ended,
                            ),
                        })
                    &&& (action is Some ==> {
                        let performed = action->0;
                        let account = performed.0;
                        let amount = performed.2;
                        &&& (exists|t: int|
                            {
                                let task = #[trigger] old(self).tasks@[t];
                                &&& 0 <= t < old(self).tasks@.len()
                                &&& task.0 == voting_id
                                &&& (forall|u: int| 0 <= u < t
                                    ==> (#[trigger] old(self).tasks@[u]).0 != voting_id)
                                &&& performed == (task.1, task.2, task.3)
                            })
                        // The engine settles the round first; the
                        // recorded action applies on top of it.
                        &&& (exists|
                            mid: ReputationContract,
                            ended: crate::voting_events::VotingEnded,
                        |
                            {
                                &&& crate::voting_engine::formal_finish_ok(
                                    old(self).voting_engine,
                                    final(self).voting_engine,
                                    *old(reputation),
                                    mid,
                                    voting_id,
                                    block_time,
                                    summary,
                                    ended,
                                )
                                &&& final(reputation).bal(account.0 as int)
                                    == mid.bal(account.0 as int)
                                        + (if performed.1 == Action::Mint {
                                        amount as int
                                    } else {
                                        -(amount as int)
                                    })
                                &&& forall|a: int| a != account.0 as int
                                    ==> final(reputation).bal(a) == mid.bal(a)
                                &&& final(reputation).stakes_storage
                                    == mid.stakes_storage
                                &&& final(reputation).access_control
                                    == mid.access_control
                            })
                    })
                },
                Err(e) => crate::voting_engine::finish_failure(
                    old(self).voting_engine,
                    *old(reputation),
                    voting_id,
                    voting_type,
                    block_time,
                    e,
                ) || (e == Error::InsufficientBalance
                    && voting_type == VotingType::Formal),
            },
    {
        let finished = self.voting_engine.finish_voting(
            reputation,
            voting_id,
            voting_type,
            block_time,
        );
        let (summary, ended) = match finished {
            Ok(ok) => ok,
            Err(e) => {
                return Err(e);
            }
        };
        proof {
            if voting_type == VotingType::Formal {
                assert(crate::voting_engine::formal_finish_ok(
                    old(self).voting_engine,
                    self.voting_engine,
                    *old(reputation),
                    *reputation,
                    voting_id,
                    block_time,
                    summary,
                    ended,
                ));
            } else {
                assert(crate::voting_engine::informal_finish_ok(
                    old(self).voting_engine,
                    self.voting_engine,
                    *old(reputation),
                    *reputation,
                    voting_id,
                    block_time,
                    summary,
                    ended,
                ));
            }
        }
        let passed = match (summary.voting_type(), summary.result()) {
            (VotingType::Formal, VotingResult::InFavor) => true,
            _ => false,
        };
        if !passed {
            return Ok((summary, None));
        }
        let mut found: Option<usize> = None;
        let mut i: usize = 0;
        while i < self.tasks.len()
            invariant
                i <= self.tasks@.len(),
                found is None ==> forall|t: int| 0 <= t < i
                    ==> (#[trigger] self.tasks@[t]).0 != voting_id,
                match found {
                    Some(t) => t < self.tasks@.len()
                        && self.tasks@[t as int].0 == voting_id
                        && (forall|u: int| 0 <= u < t
                            ==> (#[trigger] self.tasks@[u]).0 != voting_id),
                    None => true,
                },
            decreases self.tasks@.len() - i,
        {
            if found.is_none() {
                let task = self.tasks[i];
                if task.0 == voting_id {
                    found = Some(i);
                }
            }
            i += 1;
        }
        let t = match found {
            Some(t) => t,
            None => {
                return Ok((summary, None));
            }
        };
        let task = self.tasks[t];
        let caller_contract = self.voting_engine.self_address;
        let ghost mid = *reputation;
        let performed = match task.2 {
            Action::Mint => reputation.mint(caller_contract, task.1, task.3),
            Action::Burn => reputation.burn(caller_contract, task.1, task.3),
        };
        if let Err(e) = performed {
            return Err(e);
        }
        Ok((summary, Some((task.1, task.2, task.3))))
    }

    /// Slashes a voter in a reputation round: cancels their ballots
    /// in both phases, reverses the tallies and releases any bound
    /// stakes. Only whitelisted callers. Returns the cancellations.
    pub fn slash_voter(
        &mut self,
        reputation: &mut ReputationContract,
        caller: Address,
        voter: Address,
        voting_id: VotingId,
    ) -> (r: Result<Vec<crate::voting_events::BallotCanceled>, Error>)
        requires
            old(self).voting_engine.wf(),
            old(reputation).wf(),
        ensures
            final(self).voting_engine.wf(),
            final(reputation).wf(),
            final(self).access_control == old(self).access_control,
            final(self).tasks == old(self).tasks,
            match r {
                Ok(events) => exists|informal: Option<crate::ballot::Ballot>,
                    formal: Option<crate::ballot::Ballot>|
                    {
                        &&& crate::voting_engine::slash_voter_ok(
                            old(self).voting_engine,
                            final(self).voting_engine,
                            *old(reputation),
                            *final(reputation),
                            voter,
                            voting_id,
                            informal,
                            formal,
                        )
                        &&& events@ =~= crate::voting_events::cancel_events(
                            informal,
                            formal,
                        )
                    },
                Err(e) => (e == Error::NotWhitelisted
                    && !old(self).access_control.whitelist.contains_spec(caller))
                    || crate::voting_engine::slash_failure(
                    old(self).voting_engine,
                    *old(reputation),
                    voter,
                    voting_id,
                    e,
                ),
            },
    {
        let allowed = self.access_control.ensure_whitelisted(caller);
        if let Err(e) = allowed {
            return Err(e);
        }
        let slashed = self.voting_engine.slash_voter(reputation, voter, voting_id);
        let (informal, formal) = match slashed {
            Ok(pair) => pair,
            Err(e) => {
                return Err(e);
            }
        };
        let mut events: Vec<crate::voting_events::BallotCanceled> = Vec::new();
        if let Some(ballot) = informal {
            events.push(crate::voting_events::BallotCanceled::new(&ballot));
        }
        if let Some(ballot) = formal {
            events.push(crate::voting_events::BallotCanceled::new(&ballot));
        }
        proof {
            assert(events@ =~= crate::voting_events::cancel_events(informal, formal));
        }
        Ok(events)
    }
}

} // verus!
