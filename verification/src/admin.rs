//! The admin contract: governance rounds that change ownership or
//! whitelists of other contracts. A passed round yields the contract
//! call the host performs.

use vstd::prelude::*;

verus! {

use crate::access_control::AccessControl;
use crate::ballot::Choice;
use crate::configuration::Configuration;
use crate::configuration::TIME_BOUND;
use crate::contract_call::CallArgValue;
use crate::contract_call::CallArgs;
use crate::contract_call::ContractCall;
use crate::errors::Error;
use crate::reputation::ReputationContract;
use crate::types::Address;
use crate::types::Balance;
use crate::types::BlockTime;
use crate::types::VotingId;
use crate::voting_engine::VotingEngine;
use crate::voting_events::VotingCreatedInfo;
use crate::voting_state_machine::VotingResult;
use crate::voting_state_machine::VotingSummary;
use crate::voting_state_machine::VotingType;

/// The actions an admin round can perform on the target contract.
#[derive(Clone, Copy, PartialEq, Eq, Structural, Debug)]
pub enum Action {
    /// Calls the target's `add_to_whitelist` entry point.
    AddToWhitelist,
    /// Calls the target's `remove_from_whitelist` entry point.
    RemoveFromWhitelist,
    /// Calls the target's `change_ownership` entry point.
    ChangeOwner,
}

impl Action {
    /// The entry point the action invokes.
    pub fn get_entry_point(&self) -> (r: &'static str)
        ensures
            r == match *self {
                Action::AddToWhitelist => "add_to_whitelist",
                Action::RemoveFromWhitelist => "remove_from_whitelist",
                Action::ChangeOwner => "change_ownership",
            },
    {
        match self {
            Action::AddToWhitelist => "add_to_whitelist",
            Action::RemoveFromWhitelist => "remove_from_whitelist",
            Action::ChangeOwner => "change_ownership",
        }
    }

    /// The name of the entry point's account argument.
    pub fn get_arg(&self) -> (r: &'static str)
        ensures
            r == match *self {
                Action::AddToWhitelist => "address",
                Action::RemoveFromWhitelist => "address",
                Action::ChangeOwner => "owner",
            },
    {
        match self {
            Action::AddToWhitelist => "address",
            Action::RemoveFromWhitelist => "address",
            Action::ChangeOwner => "owner",
        }
    }
}

/// An admin round was created.
#[derive(Clone, Copy, PartialEq, Eq, Structural, Debug)]
pub struct AdminVotingCreated {
    /// The contract the round wants to update.
    pub contract_to_update: Address,
    /// The action to perform on it.
    pub action: Action,
    /// The account argument of the action.
    pub address: Address,
    /// The creation report of the underlying round.
    pub info: VotingCreatedInfo,
}

impl AdminVotingCreated {
    /// Builds the event.
    pub fn new(
        contract_to_update: Address,
        action: Action,
        address: Address,
        info: VotingCreatedInfo,
    ) -> (r: Self)
        ensures
            r == (AdminVotingCreated { contract_to_update, action, address, info }),
    {
        Self { contract_to_update, action, address, info }
    }
}

/// Governance rounds over administrative actions on other contracts.
#[derive(Clone, PartialEq, Eq, Debug)]
pub struct AdminContract {
    /// The underlying voting engine.
    pub voting_engine: VotingEngine,
    /// Owner and whitelist.
    pub access_control: AccessControl,
    /// The pending action of each round, in creation order.
    pub tasks: Vec<(VotingId, Address, Action, Address)>,
}

impl AdminContract {
    /// Creates the contract.
    pub fn new(self_address: Address, deployer: Address) -> (r: Self)
        ensures
            r.voting_engine.wf(),
            r.voting_engine.self_address == self_address,
            r.access_control.owner.owner == Some(deployer),
    {
        let mut access_control = AccessControl::new();
        access_control.init(deployer);
        AdminContract {
            voting_engine: VotingEngine::new(self_address),
            access_control,
            tasks: Vec::new(),
        }
    }

    /// Creates an admin round; the pending action is recorded against
    /// the new round's identifier.
    pub fn create_voting(
        &mut self,
        reputation: &mut ReputationContract,
        caller: Address,
        caller_is_va: bool,
        contract_to_update: Address,
        action: Action,
        address: Address,
        stake: Balance,
        configuration: Configuration,
        block_time: BlockTime,
    ) -> (r: Result<AdminVotingCreated, Error>)
        requires
            old(self).voting_engine.wf(),
            old(reputation).wf(),
            configuration.wf(),
            !configuration.time_between_votings_doubled,
            block_time <= TIME_BOUND,
        ensures
            final(self).voting_engine.wf(),
            final(reputation).wf(),
            final(self).access_control == old(self).access_control,
            match r {
                Ok(event) => {
                    &&& event.contract_to_update == contract_to_update
                    &&& event.action == action
                    &&& event.address == address
                    &&& event.info.creator == caller
                    &&& event.info.voting_id == old(self).voting_engine.votings@.len()
                    &&& final(self).voting_engine.votings@.len()
                        == old(self).voting_engine.votings@.len() + 1
                    &&& final(self).tasks@ == old(self).tasks@.push(
                        (event.info.voting_id, contract_to_update, action, address),
                    )
                },
                Err(e) => final(self).tasks == old(self).tasks,
            },
    {
        let created = self.voting_engine.create_voting(
            reputation,
            caller,
            caller_is_va,
            stake,
            configuration,
            block_time,
        );
        let info = match created {
            Ok(info) => info,
            Err(e) => {
                return Err(e);
            }
        };
        self.tasks.push((info.voting_id, contract_to_update, action, address));
        Ok(AdminVotingCreated::new(contract_to_update, action, address, info))
    }

    /// Casts a ballot in an admin round.
    pub fn vote(
        &mut self,
        reputation: &mut ReputationContract,
        caller: Address,
        voting_id: VotingId,
        voting_type: VotingType,
        choice: Choice,
        stake: Balance,
        block_time: BlockTime,
    ) -> (r: Result<crate::voting_events::BallotCast, Error>)
        requires
            old(self).voting_engine.wf(),
            old(reputation).wf(),
        ensures
            final(self).voting_engine.wf(),
            final(reputation).wf(),
            final(self).access_control == old(self).access_control,
            final(self).tasks == old(self).tasks,
            match r {
                Ok(cast) => cast == (crate::voting_events::BallotCast {
                    voter: caller,
                    voting_id,
                    voting_type,
                    choice,
                    stake,
                }) && VotingEngine::cast_effect(
                    old(self).voting_engine,
                    final(self).voting_engine,
                    *old(reputation),
                    *final(reputation),
                    caller,
                    voting_id,
                    choice,
                    stake,
                    old(self).voting_engine.votings@[
                        voting_id as int
                    ].is_informal_without_stake_spec(),
                ),
                Err(e) => final(self).voting_engine == old(self).voting_engine
                    && *final(reputation) == *old(reputation)
                    && crate::voting_engine::vote_failure(
                    old(self).voting_engine,
                    *old(reputation),
                    caller,
                    voting_id,
                    voting_type,
                    stake,
                    block_time,
                    e,
                ),
            },
    {
        self.voting_engine.vote(
            reputation,
            caller,
            voting_id,
            voting_type,
            choice,
            stake,
            block_time,
        )
    }

    /// Finishes an admin round's phase: the underlying round settles
    /// exactly as the engine's phase settlement states. A formal phase
    /// that passes yields the contract call recorded for the round,
    /// for the host to perform.
    pub fn finish_voting(
        &mut self,
        reputation: &mut ReputationContract,
        voting_id: VotingId,
        voting_type: VotingType,
        block_time: BlockTime,
    ) -> (r: Result<(VotingSummary, Option<ContractCall>), Error>)
        requires
            old(self).voting_engine.wf(),
            old(reputation).wf(),
        ensures
            final(self).voting_engine.wf(),
            final(reputation).wf(),
            final(self).access_control == old(self).access_control,
            final(self).tasks == old(self).tasks,
            match r {
                Ok((summary, call)) => {
                    let bs = old(self).voting_engine.ballots_of(
                        voting_id as int,
                        voting_type,
                    );
                    let result = old(self).voting_engine.votings@[
                        voting_id as int
                    ].get_result_spec(bs.len() as u32);
                    &&& summary.voting_id == voting_id
                    &&& summary.ty == voting_type
                    &&& summary.result == result
                    &&& (exists|ended: crate::voting_events::VotingEnded|
                        match voting_type {
                            VotingType::Informal => crate::voting_engine::informal_finish_ok(
                                old(self).voting_engine,
                                final(self).voting_engine,
                                *old(reputation),
                                *final(reputation),
                                voting_id,
                                block_time,
                                summary,
                                ended,
                            ),
                            VotingType::Formal => crate::voting_engine::formal_finish_ok(
                                old(self).voting_engine,
                                final(self).voting_engine,
                                *old(reputation),
                                *final(reputation),
                                voting_id,
                                block_time,
                                summary,
                                ended,
                            ),
                        })
                    &&& (call is Some <==> voting_type == VotingType::Formal
                        && result == VotingResult::InFavor
                        && (exists|t: int| 0 <= t < old(self).tasks@.len()
                            && (#[trigger] old(self).tasks@[t]).0 == voting_id))
                    &&& (call is Some ==> exists|t: int|
                        {
                            let task = #[trigger] old(self).tasks@[t];
                            &&& 0 <= t < old(self).tasks@.len()
                            &&& task.0 == voting_id
                            &&& (forall|u: int| 0 <= u < t
                                ==> (#[trigger] old(self).tasks@[u]).0 != voting_id)
                            &&& call->0.address == task.1
                            &&& call->0.entry_point == match task.2 {
                                Action::AddToWhitelist => "add_to_whitelist",
                                Action::RemoveFromWhitelist => "remove_from_whitelist",
                                Action::ChangeOwner => "change_ownership",
                            }
                            &&& call->0.call_args.args@ =~= seq![
                                (
                                    match task.2 {
                                        Action::AddToWhitelist => "address",
                                        Action::RemoveFromWhitelist => "address",
                                        Action::ChangeOwner => "owner",
                                    },
                                    CallArgValue::Account(task.3),
                                ),
                            ]
                            &&& call->0.amount is None
                        })
                },
                Err(e) => crate::voting_engine::finish_failure(
                    old(self).voting_engine,
                    *old(reputation),
                    voting_id,
                    voting_type,
                    block_time,
                    e,
                ),
            },
    {
        let finished = self.voting_engine.finish_voting(
            reputation,
            voting_id,
            voting_type,
            block_time,
        );
        let (summary, ended) = match finished {
            Ok(ok) => ok,
            Err(e) => {
                return Err(e);
            }
        };
        proof {
            if voting_type == VotingType::Formal {
                assert(crate::voting_engine::formal_finish_ok(
                    old(self).voting_engine,
                    self.voting_engine,
                    *old(reputation),
                    *reputation,
                    voting_id,
                    block_time,
                    summary,
                    ended,
                ));
            } else {
                assert(crate::voting_engine::informal_finish_ok(
                    old(self).voting_engine,
                    self.voting_engine,
                    *old(reputation),
                    *reputation,
                    voting_id,
                    block_time,
                    summary,
                    ended,
                ));
            }
        }
        let passed = match (summary.voting_type(), summary.result()) {
            (VotingType::Formal, VotingResult::InFavor) => true,
            _ => false,
        };
        if !passed {
            return Ok((summary, None));
        }
        // Find the round's pending action.
        let mut found: Option<usize> = None;
        let mut i: usize = 0;
        while i < self.tasks.len()
            invariant
                i <= self.tasks@.len(),
                found is None ==> forall|t: int| 0 <= t < i
                    ==> (#[trigger] self.tasks@[t]).0 != voting_id,
                match found {
                    Some(t) => t < self.tasks@.len()
                        && self.tasks@[t as int].0 == voting_id
                        && (forall|u: int| 0 <= u < t
                            ==> (#[trigger] self.tasks@[u]).0 != voting_id),
                    None => true,
                },
            decreases self.tasks@.len() - i,
        {
            if found.is_none() {
                let task = self.tasks[i];
                if task.0 == voting_id {
                    found = Some(i);
                }
            }
            i += 1;
        }
        match found {
            Some(t) => {
                let task = self.tasks[t];
                let mut call_args = CallArgs::new();
                call_args.insert(task.2.get_arg(), CallArgValue::Account(task.3));
                let call = ContractCall {
                    address: task.1,
                    entry_point: task.2.get_entry_point(),
                    call_args,
                    amount: None,
                };
                Ok((summary, Some(call)))
            }
            None => Ok((summary, None)),
        }
    }

    /// Slashes a voter in an admin round: cancels their ballots in
    /// both phases, reverses the tallies and releases any bound
    /// stakes. Only whitelisted callers. Returns the cancellations.
    pub fn slash_voter(
        &mut self,
        reputation: &mut ReputationContract,
        caller: Address,
        voter: Address,
        voting_id: VotingId,
    ) -> (r: Result<Vec<crate::voting_events::BallotCanceled>, Error>)
        requires
            old(self).voting_engine.wf(),
            old(reputation).wf(),
        ensures
            final(self).voting_engine.wf(),
            final(reputation).wf(),
            final(self).access_control == old(self).access_control,
            final(self).tasks == old(self).tasks,
            match r {
                Ok(events) => exists|informal: Option<crate::ballot::Ballot>,
                    formal: Option<crate::ballot::Ballot>|
                    {
                        &&& crate::voting_engine::slash_voter_ok(
                            old(self).voting_engine,
                            final(self).voting_engine,
                            *old(reputation),
                            *final(reputation),
                            voter,
                            voting_id,
                            informal,
                            formal,
                        )
                        &&& events@ =~= crate::voting_events::cancel_events(
                            informal,
                            formal,
                        )
                    },
                Err(e) => (e == Error::NotWhitelisted
                    && !old(self).access_control.whitelist.contains_spec(caller))
                    || crate::voting_engine::slash_failure(
                    old(self).voting_engine,
                    *old(reputation),
                    voter,
                    voting_id,
                    e,
                ),
            },
    {
        let allowed = self.access_control.ensure_whitelisted(caller);
        if let Err(e) = allowed {
            return Err(e);
        }
        let slashed = self.voting_engine.slash_voter(reputation, voter, voting_id);
        let (informal, formal) = match slashed {
            Ok(pair) => pair,
            Err(e) => {
                return Err(e);
            }
        };
        let mut events: Vec<crate::voting_events::BallotCanceled> = Vec::new();
        if let Some(ballot) = informal {
            events.push(crate::voting_events::BallotCanceled::new(&ballot));
        }
        if let Some(ballot) = formal {
            events.push(crate::voting_events::BallotCanceled::new(&ballot));
        }
        proof {
            assert(events@ =~= crate::voting_events::cancel_events(informal, formal));
        }
        Ok(events)
    }
}

} // verus!
