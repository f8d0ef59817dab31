//! The slashing voter: governance rounds that strip a malicious
//! account of its reputation and unwind its open positions.
//!
//! A passed formal round burns the subject's reputation here and
//! reports the open stake origins back, so the host can dispatch the
//! slashing calls to the escrow and voter contracts they belong to.

use vstd::prelude::*;

verus! {

use crate::access_control::AccessControl;
use crate::ballot::Choice;
use crate::configuration::Configuration;
use crate::configuration::RATIO_SCALE;
use crate::configuration::TIME_BOUND;
use crate::errors::Error;
use crate::reputation::ReputationContract;
use crate::stakes::Origin;
use crate::types::Address;
use crate::types::Balance;
use crate::types::BlockTime;
use crate::types::VotingId;
use crate::voting_engine::VotingEngine;
use crate::voting_events::VotingCreatedInfo;
use crate::voting_state_machine::VotingResult;
use crate::voting_state_machine::VotingSummary;
use crate::voting_state_machine::VotingType;

/// The task a slashing round decides on.
#[derive(Clone, Copy, PartialEq, Eq, Structural, Debug)]
pub struct SlashTask {
    /// The account to slash.
    pub subject: Address,
    /// The per-mille share of the reputation to burn; the full scale
    /// means a complete slash with cascade.
    pub ratio: u32,
    /// The subject's balance when the round was created.
    pub reputation_at_voting_creation: Balance,
}

/// A slashing round was created.
#[derive(Clone, Copy, PartialEq, Eq, Structural, Debug)]
pub struct SlashingVotingCreated {
    /// The account to slash.
    pub address_to_slash: Address,
    /// The per-mille share to burn.
    pub slash_ratio: u32,
    /// The creation report of the underlying round.
    pub info: VotingCreatedInfo,
}

impl SlashingVotingCreated {
    /// Builds the event.
    pub fn new(address_to_slash: Address, slash_ratio: u32, info: VotingCreatedInfo) -> (r:
        Self)
        ensures
            r == (SlashingVotingCreated { address_to_slash, slash_ratio, info }),
    {
        Self { address_to_slash, slash_ratio, info }
    }
}

/// What a full slash asks the host to dispatch: the slashed account's
/// open positions, each owned by some other contract.
#[derive(Clone, PartialEq, Eq, Debug)]
pub struct SlashCascade {
    /// The slashed account.
    pub subject: Address,
    /// The escrow contracts whose active job offers of the subject
    /// must be cancelled.
    pub bid_escrows: Vec<Address>,
    /// The subject's open bid origins: (escrow contract, bid).
    pub bid_slashes: Vec<Origin>,
    /// The subject's open voting origins: (voter contract, round).
    pub voting_slashes: Vec<Origin>,
}

/// Governance rounds over slashing an account.
#[derive(Clone, PartialEq, Eq, Debug)]
pub struct SlashingVoterContract {
    /// The underlying voting engine.
    pub voting_engine: VotingEngine,
    /// Owner and whitelist.
    pub access_control: AccessControl,
    /// The pending task of each round, in creation order.
    pub tasks: Vec<(VotingId, SlashTask)>,
    /// The escrow contracts a full slash cascades into.
    pub bid_escrows: Vec<Address>,
}

impl SlashingVoterContract {
    /// Creates the contract.
    pub fn new(self_address: Address, deployer: Address) -> (r: Self)
        ensures
            r.voting_engine.wf(),
            r.voting_engine.self_address == self_address,
            r.access_control.owner.owner == Some(deployer),
    {
        let mut access_control = AccessControl::new();
        access_control.init(deployer);
        SlashingVoterContract {
            voting_engine: VotingEngine::new(self_address),
            access_control,
            tasks: Vec::new(),
            bid_escrows: Vec::new(),
        }
    }

    /// Replaces the list of escrow contracts a full slash cascades
    /// into; only whitelisted callers.
    pub fn update_bid_escrow_list(&mut self, caller: Address, bid_escrows: Vec<Address>) -> (r:
        Result<(), Error>)
        ensures
            match r {
                Ok(()) => old(self).access_control.whitelist.contains_spec(caller)
                    && *final(self) == (SlashingVoterContract {
                        bid_escrows,
                        ..*old(self)
                    }),
                Err(e) => e == Error::NotWhitelisted && *final(self) == *old(self)
                    && !old(self).access_control.whitelist.contains_spec(caller),
            },
    {
        let allowed = self.access_control.ensure_whitelisted(caller);
        if let Err(e) = allowed {
            return Err(e);
        }
        self.bid_escrows = bid_escrows;
        Ok(())
    }

    /// Creates a slashing round over `address_to_slash`, snapshotting
    /// the subject's balance for the partial-burn arithmetic.
    pub fn create_voting(
        &mut self,
        reputation: &mut ReputationContract,
        caller: Address,
        caller_is_va: bool,
        address_to_slash: Address,
        slash_ratio: u32,
        stake: Balance,
        configuration: Configuration,
        block_time: BlockTime,
    ) -> (r: Result<SlashingVotingCreated, Error>)
        requires
            old(self).voting_engine.wf(),
            old(reputation).wf(),
            configuration.wf(),
            !configuration.time_between_votings_doubled,
            block_time <= TIME_BOUND,
            slash_ratio <= RATIO_SCALE,
        ensures
            final(self).voting_engine.wf(),
            final(reputation).wf(),
            final(self).access_control == old(self).access_control,
            final(self).bid_escrows == old(self).bid_escrows,
            match r {
                Ok(event) => {
                    &&& event.address_to_slash == address_to_slash
                    &&& event.slash_ratio == slash_ratio
                    &&& event.info.creator == caller
                    &&& event.info.voting_id == old(self).voting_engine.votings@.len()
                    &&& final(self).voting_engine.votings@.len()
                        == old(self).voting_engine.votings@.len() + 1
                    &&& final(self).tasks@ == old(self).tasks@.push(
                        (
                            event.info.voting_id,
                            SlashTask {
                                subject: address_to_slash,
                                ratio: slash_ratio,
                                reputation_at_voting_creation: old(reputation).bal(
                                    address_to_slash.0 as int,
                                ) as u64,
                            },
                        ),
                    )
                },
                Err(e) => final(self).tasks == old(self).tasks,
            },
    {
        let current_reputation = reputation.balance_of(address_to_slash);
        let created = self.voting_engine.create_voting(
            reputation,
            caller,
            caller_is_va,
            stake,
            configuration,
            block_time,
        );
        let info = match created {
            Ok(info) => info,
            Err(e) => {
                return Err(e);
            }
        };
        let task = SlashTask {
            subject: address_to_slash,
            ratio: slash_ratio,
            reputation_at_voting_creation: current_reputation,
        };
        self.tasks.push((info.voting_id, task));
        Ok(SlashingVotingCreated::new(address_to_slash, slash_ratio, info))
    }

    /// Casts a ballot in a slashing round. The subject of the round
    /// may not vote in it.
    pub fn vote(
        &mut self,
        reputation: &mut ReputationContract,
        caller: Address,
        voting_id: VotingId,
        voting_type: VotingType,
        choice: Choice,
        stake: Balance,
        block_time: BlockTime,
    ) -> (r: Result<crate::voting_events::BallotCast, Error>)
        requires
            old(self).voting_engine.wf(),
            old(reputation).wf(),
        ensures
            final(self).voting_engine.wf(),
            final(reputation).wf(),
            final(self).access_control == old(self).access_control,
            final(self).tasks == old(self).tasks,
            final(self).bid_escrows == old(self).bid_escrows,
            match r {
                Ok(cast) => (forall|t: int| 0 <= t < old(self).tasks@.len()
                    && (#[trigger] old(self).tasks@[t]).0 == voting_id
                    ==> old(self).tasks@[t].1.subject != caller)
                    && cast == (crate::voting_events::BallotCast {
                    voter: caller,
                    voting_id,
                    voting_type,
                    choice,
                    stake,
                }) && VotingEngine::cast_effect(
                    old(self).voting_engine,
                    final(self).voting_engine,
                    *old(reputation),
                    *final(reputation),
                    caller,
                    voting_id,
                    choice,
                    stake,
                    old(self).voting_engine.votings@[
                        voting_id as int
                    ].is_informal_without_stake_spec(),
                ),
                Err(e) => final(self).voting_engine == old(self).voting_engine
                    && *final(reputation) == *old(reputation)
                    && ((e == Error::SubjectOfSlashing && exists|t: int|
                        0 <= t < old(self).tasks@.len()
                            && (#[trigger] old(self).tasks@[t]).0 == voting_id
                            && old(self).tasks@[t].1.subject == caller)
                        || crate::voting_engine::vote_failure(
                        old(self).voting_engine,
                        *old(reputation),
                        caller,
                        voting_id,
                        voting_type,
                        stake,
                        block_time,
                        e,
                    )),
            },
    {
        // The subject of the round may not vote.
        let mut i: usize = 0;
        while i < self.tasks.len()
            invariant
                *self == *old(self),
                old(self).voting_engine.wf(),
                old(reputation).wf(),
                *reputation == *old(reputation),
                i <= self.tasks@.len(),
                forall|t: int| 0 <= t < i && (#[trigger] self.tasks@[t]).0 == voting_id
                    ==> self.tasks@[t].1.subject != caller,
            decreases self.tasks@.len() - i,
        {
            let task = self.tasks[i];
            if task.0 == voting_id && task.1.subject == caller {
                proof {
                    assert(old(self).tasks@[i as int].0 == voting_id
                        && old(self).tasks@[i as int].1.subject == caller);
                }
                return Err(Error::SubjectOfSlashing);
            }
            i += 1;
        }
        self.voting_engine.vote(
            reputation,
            caller,
            voting_id,
            voting_type,
            choice,
            stake,
            block_time,
        )
    }

    /// Finishes a slashing round's phase: the underlying round
    /// settles exactly as the engine's phase settlement states. A
    /// formal phase that passes performs the burn: a partial slash
    /// burns the snapshot share of the subject's reputation; a full
    /// slash burns everything and reports the subject's open
    /// positions for the host to unwind.
    pub fn finish_voting(
        &mut self,
        reputation: &mut ReputationContract,
        voting_id: VotingId,
        voting_type: VotingType,
        block_time: BlockTime,
    ) -> (r: Result<(VotingSummary, Option<SlashCascade>), Error>)
        requires
            old(self).voting_engine.wf(),
            old(reputation).wf(),
        ensures
            final(self).voting_engine.wf(),
            final(reputation).reputation_storage.wf(),
            final(reputation).passive_reputation_storage.wf(),
            final(self).access_control == old(self).access_control,
            final(self).tasks == old(self).tasks,
            final(self).bid_escrows == old(self).bid_escrows,
            match r {
                Ok((summary, cascade)) => {
                    let bs = old(self).voting_engine.ballots_of(
                        voting_id as int,
                        voting_type,
                    );
                    let result = old(self).voting_engine.votings@[
                        voting_id as int
                    ].get_result_spec(bs.len() as u32);
                    &&& summary.voting_id == voting_id
                    &&& summary.ty == voting_type
                    &&& summary.result == result
                    &&& (result != VotingResult::InFavor
                        || voting_type != VotingType::Formal ==> final(reputation).wf()
                            && (exists|ended: crate::voting_events::VotingEnded|
                            match voting_type {
                                VotingType::Informal =>
                                    crate::voting_engine::informal_finish_ok(
                                    old(self).voting_engine,
                                    final(self).voting_engine,
                                    *old(reputation),
                                    *final(reputation),
                                    voting_id,
                                    block_time,
                                    summary,
                                    ended,
                                ),
                                VotingType::Formal =>
                                    crate::voting_engine::formal_finish_ok(
                                    old(self).voting_engine,
                                    final(self).voting_engine,
                                    *old(reputation),
                                    *final(reputation),
                                    voting_id,
                                    block_time,
                                    summary,
                                    ended,
                                ),
                            }))
                    &&& (voting_type == VotingType::Formal
                        && result == VotingResult::InFavor
                        && (exists|t: int| 0 <= t < old(self).tasks@.len()
                            && (#[trigger] old(self).tasks@[t]).0 == voting_id)
                        ==> exists|t: int|
                        {
                            let task = (#[trigger] old(self).tasks@[t]).1;
                            &&& 0 <= t < old(self).tasks@.len()
                            &&& old(self).tasks@[t].0 == voting_id
                            &&& (forall|u: int| 0 <= u < t
                                ==> (#[trigger] old(self).tasks@[u]).0 != voting_id)
                            &&& exists|mid: ReputationContract,
                            ended: crate::voting_events::VotingEnded|
                            {
                            &&& crate::voting_engine::formal_finish_ok(
                                old(self).voting_engine,
                                final(self).voting_engine,
                                *old(reputation),
                                mid,
                                voting_id,
                                block_time,
                                summary,
                                ended,
                            )
                            &&& (task.ratio < RATIO_SCALE as u32 ==> {
                                // Partial slash: the snapshot share
                                // of the subject's balance burns.
                                &&& cascade is None
                                &&& final(reputation).bal(task.subject.0 as int)
                                    == mid.bal(task.subject.0 as int)
                                        - task.reputation_at_voting_creation
                                            * task.ratio / (RATIO_SCALE as int)
                                &&& forall|a: int| a != task.subject.0 as int
                                    ==> final(reputation).bal(a) == mid.bal(a)
                            })
                            &&& (task.ratio >= RATIO_SCALE as u32 ==> {
                                // Full slash: everything burns and
                                // the open positions are reported.
                                &&& final(reputation).bal(task.subject.0 as int) == 0
                                &&& forall|a: int| a != task.subject.0 as int
                                    ==> final(reputation).bal(a) == mid.bal(a)
                                &&& cascade is Some
                                &&& cascade->0.subject == task.subject
                                &&& (cascade->0).bid_escrows@
                                    == old(self).bid_escrows@
                                &&& (cascade->0).bid_slashes@.to_multiset()
                                    == final(reputation).stakes_storage.open_bids(
                                    task.subject.0 as int,
                                )
                                &&& (cascade->0).voting_slashes@.to_multiset()
                                    == final(reputation).stakes_storage.open_votings(
                                    task.subject.0 as int,
                                )
                            })
                            }
                        })
                },
                Err(e) => crate::voting_engine::finish_failure(
                    old(self).voting_engine,
                    *old(reputation),
                    voting_id,
                    voting_type,
                    block_time,
                    e,
                ) || (e == Error::InsufficientBalance
                    && voting_type == VotingType::Formal),
            },
    {
        let finished = self.voting_engine.finish_voting(
            reputation,
            voting_id,
            voting_type,
            block_time,
        );
        let (summary, ended) = match finished {
            Ok(ok) => ok,
            Err(e) => {
                return Err(e);
            }
        };
        proof {
            if voting_type == VotingType::Formal {
                assert(crate::voting_engine::formal_finish_ok(
                    old(self).voting_engine,
                    self.voting_engine,
                    *old(reputation),
                    *reputation,
                    voting_id,
                    block_time,
                    summary,
                    ended,
                ));
            } else {
                assert(crate::voting_engine::informal_finish_ok(
                    old(self).voting_engine,
                    self.voting_engine,
                    *old(reputation),
                    *reputation,
                    voting_id,
                    block_time,
                    summary,
                    ended,
                ));
            }
        }
        let passed = match (summary.voting_type(), summary.result()) {
            (VotingType::Formal, VotingResult::InFavor) => true,
            _ => false,
        };
        if !passed {
            return Ok((summary, None));
        }
        let mut found: Option<usize> = None;
        let mut i: usize = 0;
        while i < self.tasks.len()
            invariant
                i <= self.tasks@.len(),
                found is None ==> forall|t: int| 0 <= t < i
                    ==> (#[trigger] self.tasks@[t]).0 != voting_id,
                match found {
                    Some(t) => t < self.tasks@.len()
                        && self.tasks@[t as int].0 == voting_id
                        && (forall|u: int| 0 <= u < t
                            ==> (#[trigger] self.tasks@[u]).0 != voting_id),
                    None => true,
                },
            decreases self.tasks@.len() - i,
        {
            if found.is_none() {
                let task = self.tasks[i];
                if task.0 == voting_id {
                    found = Some(i);
                }
            }
            i += 1;
        }
        let t = match found {
            Some(t) => t,
            None => {
                return Ok((summary, None));
            }
        };
        let task = self.tasks[t].1;
        let caller_contract = self.voting_engine.self_address;
        let ghost mid = *reputation;

        if task.ratio < RATIO_SCALE as u32 {
            // Partial slash: burn the snapshot share only.
            proof {
                crate::math::lemma_u64_mul_fits(
                    task.reputation_at_voting_creation,
                    task.ratio as u64,
                );
                crate::math::lemma_share_le_whole(
                    task.reputation_at_voting_creation,
                    task.ratio as u64,
                    RATIO_SCALE,
                );
            }
            let slash_amount: u64 = (((task.reputation_at_voting_creation as u128)
                * (task.ratio as u128)) / (RATIO_SCALE as u128)) as u64;
            let burned = reputation.burn(caller_contract, task.subject, slash_amount);
            if let Err(e) = burned {
                return Err(e);
            }
            return Ok((summary, None));
        }

        // Full slash: burn everything and report the subject's open
        // positions; the host dispatches the unwinding calls.
        let burned = reputation.burn_all(caller_contract, task.subject);
        if let Err(e) = burned {
            return Err(e);
        }
        let stakes = reputation.stakes_info(task.subject);
        let mut escrows: Vec<Address> = Vec::new();
        let mut k: usize = 0;
        while k < self.bid_escrows.len()
            invariant
                k <= self.bid_escrows@.len(),
                escrows@ == self.bid_escrows@.take(k as int),
            decreases self.bid_escrows@.len() - k,
        {
            escrows.push(self.bid_escrows[k]);
            proof {
                assert(escrows@ =~= self.bid_escrows@.take(k + 1));
            }
            k += 1;
        }
        proof {
            assert(self.bid_escrows@.take(self.bid_escrows@.len() as int)
                =~= self.bid_escrows@);
        }
        let cascade = SlashCascade {
            subject: task.subject,
            bid_escrows: escrows,
            bid_slashes: stakes.stakes_from_bid,
            voting_slashes: stakes.stakes_from_voting,
        };
        Ok((summary, Some(cascade)))
    }

    /// Slashes a voter in a slashing round: cancels their ballots in
    /// both phases, reverses the tallies and releases any bound
    /// stakes. Only whitelisted callers. Returns the cancellations.
    pub fn slash_voter(
        &mut self,
        reputation: &mut ReputationContract,
        caller: Address,
        voter: Address,
        voting_id: VotingId,
    ) -> (r: Result<Vec<crate::voting_events::BallotCanceled>, Error>)
        requires
            old(self).voting_engine.wf(),
            old(reputation).wf(),
        ensures
            final(self).voting_engine.wf(),
            final(reputation).wf(),
            final(self).access_control == old(self).access_control,
            final(self).tasks == old(self).tasks,
            final(self).bid_escrows == old(self).bid_escrows,
            match r {
                Ok(events) => exists|informal: Option<crate::ballot::Ballot>,
                    formal: Option<crate::ballot::Ballot>|
                    {
                        &&& crate::voting_engine::slash_voter_ok(
                            old(self).voting_engine,
                            final(self).voting_engine,
                            *old(reputation),
                            *final(reputation),
                            voter,
                            voting_id,
                            informal,
                            formal,
                        )
                        &&& events@ =~= crate::voting_events::cancel_events(
                            informal,
                            formal,
                        )
                    },
                Err(e) => (e == Error::NotWhitelisted
                    && !old(self).access_control.whitelist.contains_spec(caller))
                    || crate::voting_engine::slash_failure(
                    old(self).voting_engine,
                    *old(reputation),
                    voter,
                    voting_id,
                    e,
                ),
            },
    {
        let allowed = self.access_control.ensure_whitelisted(caller);
        if let Err(e) = allowed {
            return Err(e);
        }
        let slashed = self.voting_engine.slash_voter(reputation, voter, voting_id);
        let (informal, formal) = match slashed {
            Ok(pair) => pair,
            Err(e) => {
                return Err(e);
            }
        };
        let mut events: Vec<crate::voting_events::BallotCanceled> = Vec::new();
        if let Some(ballot) = informal {
            events.push(crate::voting_events::BallotCanceled::new(&ballot));
        }
        if let Some(ballot) = formal {
            events.push(crate::voting_events::BallotCanceled::new(&ballot));
        }
        proof {
            assert(events@ =~= crate::voting_events::cancel_events(informal, formal));
        }
        Ok(events)
    }
}

} // verus!
