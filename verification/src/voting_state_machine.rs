//! The per-round voting state machine.
//!
//! A round advances `Created -> Informal -> BetweenVotings -> Formal ->
//! Finished`, with `Canceled` reachable from any non-terminal state. The
//! time-derived state is a pure function of the frozen configuration and
//! the creation time; the stored state only records completion and which
//! phase's tallies are being accumulated.

use vstd::prelude::*;

verus! {

use crate::ballot::Choice;
use crate::configuration::Configuration;
use crate::configuration::TIME_BOUND;
use crate::types::Address;
use crate::types::Balance;
use crate::types::BlockTime;
use crate::types::VotingId;

/// Stored state of a voting round.
#[derive(Clone, Copy, PartialEq, Eq, Structural, Debug)]
pub enum VotingState {
    /// Created, the informal phase has not started yet.
    Created,
    /// The informal phase is running.
    Informal,
    /// The informal phase ended, the formal one has not started.
    BetweenVotings,
    /// The formal phase is running.
    Formal,
    /// The round ended gracefully.
    Finished,
    /// The round was interrupted.
    Canceled,
}

/// Which of the two sequential phases a tally or ballot belongs to.
#[derive(Clone, Copy, PartialEq, Eq, Structural, Debug)]
pub enum VotingType {
    Informal,
    Formal,
}

/// The time-derived progression of a round.
#[derive(Clone, Copy, PartialEq, Eq, Structural, Debug)]
pub enum VotingStateInTime {
    BeforeInformal,
    Informal,
    BetweenVotings,
    Formal,
    AfterFormal,
}

/// Result of a voting round.
#[derive(Clone, Copy, PartialEq, Eq, Structural, Debug)]
pub enum VotingResult {
    /// The round passed.
    InFavor,
    /// The round was rejected.
    Against,
    /// Too few voters took part.
    QuorumNotReached,
    /// The round was canceled.
    Canceled,
}

/// Tallies of one voting phase.
#[derive(Clone, Copy, PartialEq, Eq, Structural, Debug)]
pub struct Stats {
    /// Total bound stake in favor.
    pub stake_in_favor: Balance,
    /// Total bound stake against.
    pub stake_against: Balance,
    /// Total unbound stake in favor.
    pub unbound_stake_in_favor: Balance,
    /// Total unbound stake against.
    pub unbound_stake_against: Balance,
    /// Number of accounts that voted in favor.
    pub votes_in_favor: u32,
    /// Number of accounts that voted against.
    pub votes_against: u32,
}

impl Stats {
    /// All four stake tallies summed stay within `u64`, so tally reads
    /// never overflow.
    pub open spec fn wf(self) -> bool {
        self.stake_in_favor + self.stake_against + self.unbound_stake_in_favor
            + self.unbound_stake_against <= u64::MAX
    }

    /// Zeroed tallies.
    pub open spec fn zero() -> Stats {
        Stats {
            stake_in_favor: 0,
            stake_against: 0,
            unbound_stake_in_favor: 0,
            unbound_stake_against: 0,
            votes_in_favor: 0,
            votes_against: 0,
        }
    }
}

impl Default for Stats {
    /// Tallies start at zero.
    fn default() -> (r: Stats)
        ensures
            r == Stats::zero(),
    {
        Stats {
            stake_in_favor: 0,
            stake_against: 0,
            unbound_stake_in_favor: 0,
            unbound_stake_against: 0,
            votes_in_favor: 0,
            votes_against: 0,
        }
    }
}

/// Adds `stake` to the bound tally of `choice`.
pub open spec fn stats_add_bound(s: Stats, choice: Choice, stake: Balance) -> Stats {
    match choice {
        Choice::InFavor => Stats { stake_in_favor: (s.stake_in_favor + stake) as u64, ..s },
        Choice::Against => Stats { stake_against: (s.stake_against + stake) as u64, ..s },
    }
}

/// Removes `stake` from the bound tally of `choice`.
pub open spec fn stats_remove_bound(s: Stats, choice: Choice, stake: Balance) -> Stats {
    match choice {
        Choice::InFavor => Stats { stake_in_favor: (s.stake_in_favor - stake) as u64, ..s },
        Choice::Against => Stats { stake_against: (s.stake_against - stake) as u64, ..s },
    }
}

/// Adds `stake` to the unbound tally of `choice`.
pub open spec fn stats_add_unbound(s: Stats, choice: Choice, stake: Balance) -> Stats {
    match choice {
        Choice::InFavor => Stats {
            unbound_stake_in_favor: (s.unbound_stake_in_favor + stake) as u64,
            ..s
        },
        Choice::Against => Stats {
            unbound_stake_against: (s.unbound_stake_against + stake) as u64,
            ..s
        },
    }
}

/// Removes `stake` from the unbound tally of `choice`.
pub open spec fn stats_remove_unbound(s: Stats, choice: Choice, stake: Balance) -> Stats {
    match choice {
        Choice::InFavor => Stats {
            unbound_stake_in_favor: (s.unbound_stake_in_favor - stake) as u64,
            ..s
        },
        Choice::Against => Stats {
            unbound_stake_against: (s.unbound_stake_against - stake) as u64,
            ..s
        },
    }
}

/// Counts one more voter for `choice`.
pub open spec fn stats_add_vote(s: Stats, choice: Choice) -> Stats {
    match choice {
        Choice::InFavor => Stats { votes_in_favor: (s.votes_in_favor + 1) as u32, ..s },
        Choice::Against => Stats { votes_against: (s.votes_against + 1) as u32, ..s },
    }
}

/// Serializable voting state with state-machine capabilities: metadata,
/// the frozen configuration and the tallies of both phases.
#[derive(Clone, Copy, PartialEq, Eq, Structural, Debug)]
pub struct VotingStateMachine {
    /// The round's identifier.
    pub voting_id: VotingId,
    /// Stored (not time-derived) state.
    pub state: VotingState,
    /// Which phase's tallies are being accumulated.
    pub voting_type: VotingType,
    /// Tallies of the informal phase.
    pub informal_stats: Stats,
    /// Tallies of the formal phase.
    pub formal_stats: Stats,
    /// Creation time.
    pub created_at: u64,
    /// The account that created the round.
    pub creator: Address,
    /// The frozen configuration snapshot.
    pub configuration: Configuration,
}

impl VotingStateMachine {
    /// Structural bounds: the snapshot is well-formed, the creation time
    /// is a sane timestamp, both tally blocks stay within `u64`, and the
    /// pause doubling can only have happened once the formal phase began.
    pub open spec fn wf(self) -> bool {
        &&& self.configuration.wf()
        &&& self.created_at <= TIME_BOUND
        &&& self.informal_stats.wf()
        &&& self.formal_stats.wf()
        &&& self.configuration.time_between_votings_doubled
            ==> self.voting_type == VotingType::Formal
    }

    /// The tallies of the phase currently being accumulated.
    pub open spec fn stats(self) -> Stats {
        match self.voting_type {
            VotingType::Informal => self.informal_stats,
            VotingType::Formal => self.formal_stats,
        }
    }

    /// This machine with the active phase's tallies replaced by `s`.
    pub open spec fn with_stats(self, s: Stats) -> Self {
        match self.voting_type {
            VotingType::Informal => VotingStateMachine { informal_stats: s, ..self },
            VotingType::Formal => VotingStateMachine { formal_stats: s, ..self },
        }
    }

    /// Start of the informal phase.
    pub open spec fn informal_voting_start_time_spec(self) -> int {
        self.created_at + self.configuration.voting_delay
    }

    /// End of the informal phase.
    pub open spec fn informal_voting_end_time_spec(self) -> int {
        self.informal_voting_start_time_spec() + self.configuration.informal_voting_time
    }

    /// End of the pause between the informal and the formal phase.
    pub open spec fn time_between_votings_end_time_spec(self) -> int {
        self.informal_voting_end_time_spec()
            + self.configuration.time_between_informal_and_formal_voting
    }

    /// End of the formal phase.
    pub open spec fn formal_voting_end_time_spec(self) -> int {
        self.time_between_votings_end_time_spec() + self.configuration.formal_voting_time
    }

    /// The time-derived state at `block_time`.
    pub open spec fn state_in_time_spec(self, block_time: BlockTime) -> VotingState {
        if block_time < self.informal_voting_start_time_spec() {
            VotingState::Created
        } else if block_time <= self.informal_voting_end_time_spec() {
            VotingState::Informal
        } else if block_time <= self.time_between_votings_end_time_spec() {
            VotingState::BetweenVotings
        } else if block_time <= self.formal_voting_end_time_spec() {
            VotingState::Formal
        } else {
            VotingState::Finished
        }
    }

    /// Creates a new round with an immutable configuration snapshot.
    pub fn new(
        voting_id: VotingId,
        created_at: u64,
        creator: Address,
        configuration: Configuration,
    ) -> (r: Self)
        requires
            configuration.wf(),
            !configuration.time_between_votings_doubled,
            created_at <= TIME_BOUND,
        ensures
            r.wf(),
            r == (VotingStateMachine {
                voting_id,
                state: VotingState::Created,
                voting_type: VotingType::Informal,
                informal_stats: Stats::zero(),
                formal_stats: Stats::zero(),
                created_at,
                creator,
                configuration,
            }),
    {
        VotingStateMachine {
            voting_id,
            state: VotingState::Created,
            voting_type: VotingType::Informal,
            informal_stats: Default::default(),
            formal_stats: Default::default(),
            created_at,
            creator,
            configuration,
        }
    }

    /// Whether the informal result is close: the stake difference is at
    /// most `voting_clearness_delta` per cent of the total stake.
    pub open spec fn is_result_close_spec(self) -> bool {
        let in_favor = self.stake_in_favor_spec() + self.unbound_stake_in_favor_spec();
        let against = self.stake_against_spec() + self.unbound_stake_against_spec();
        let diff = if in_favor >= against { in_favor - against } else { against - in_favor };
        diff * 100 / self.total_stake_spec() <= self.configuration.voting_clearness_delta
    }

    /// Whether the informal result counts as close: there was stake at
    /// all, and the stake difference is within the clearness threshold.
    /// A round without any stake skips the closeness check.
    pub open spec fn close_enough_to_double(self) -> bool {
        self.total_stake_spec() > 0 && self.is_result_close_spec()
    }

    /// Ends the informal phase: checks whether the result was close (and
    /// if so doubles this round's pause before the formal phase), then
    /// switches to the formal phase.
    pub fn complete_informal_voting(&mut self)
        requires
            old(self).wf(),
            old(self).voting_type == VotingType::Informal,
        ensures
            final(self).wf(),
            final(self).state == VotingState::Formal,
            final(self).voting_type == VotingType::Formal,
            final(self).informal_stats == old(self).informal_stats,
            final(self).formal_stats == old(self).formal_stats,
            final(self).created_at == old(self).created_at,
            final(self).creator == old(self).creator,
            final(self).voting_id == old(self).voting_id,
            final(self).configuration.time_between_votings_doubled
                == old(self).close_enough_to_double(),
            old(self).close_enough_to_double()
                ==> final(self).configuration.time_between_informal_and_formal_voting
                    == 2 * old(self).configuration.time_between_informal_and_formal_voting,
            !old(self).close_enough_to_double()
                ==> final(self).configuration == old(self).configuration,
    {
        self.state = VotingState::Formal;
        if self.total_stake() > 0 && self.is_result_close() {
            self.configuration.double_time_between_votings();
        }
        self.voting_type = VotingType::Formal;
    }

    /// Ends the voting process gracefully.
    pub fn finish(&mut self)
        ensures
            *final(self) == (VotingStateMachine { state: VotingState::Finished, ..*old(self) }),
    {
        self.state = VotingState::Finished;
    }

    /// Ends the voting process forcefully and cancels the result.
    pub fn cancel(&mut self)
        ensures
            *final(self) == (VotingStateMachine { state: VotingState::Canceled, ..*old(self) }),
    {
        self.state = VotingState::Canceled;
    }

    /// Returns the phase currently being accumulated.
    pub fn voting_type(&self) -> (r: VotingType)
        ensures
            r == self.voting_type,
    {
        self.voting_type
    }

    /// Whether this is an informal round that does not lock reputation.
    pub open spec fn is_informal_without_stake_spec(self) -> bool {
        !self.configuration.informal_stake_reputation
            && self.voting_type == VotingType::Informal
    }

    /// Whether this is an informal round that does not lock reputation.
    pub fn is_informal_without_stake(&self) -> (r: bool)
        ensures
            r == self.is_informal_without_stake_spec(),
    {
        !self.configuration.informal_stake_reputation
            && self.voting_type() == VotingType::Informal
    }

    /// Gets the informal phase start time.
    pub fn informal_voting_start_time(&self) -> (r: BlockTime)
        requires
            self.wf(),
        ensures
            r == self.informal_voting_start_time_spec(),
    {
        self.created_at + self.configuration.voting_delay
    }

    /// Gets the informal phase end time.
    pub fn informal_voting_end_time(&self) -> (r: BlockTime)
        requires
            self.wf(),
        ensures
            r == self.informal_voting_end_time_spec(),
    {
        self.informal_voting_start_time() + self.configuration.informal_voting_time
    }

    /// Gets the end of the pause between the two phases.
    pub fn time_between_votings_end_time(&self) -> (r: BlockTime)
        requires
            self.wf(),
        ensures
            r == self.time_between_votings_end_time_spec(),
    {
        self.informal_voting_end_time()
            + self.configuration.time_between_informal_and_formal_voting
    }

    /// Gets the formal phase end time.
    pub fn formal_voting_end_time(&self) -> (r: BlockTime)
        requires
            self.wf(),
        ensures
            r == self.formal_voting_end_time_spec(),
    {
        self.time_between_votings_end_time() + self.configuration.formal_voting_time
    }

    /// Whether `block_time` lies inside the active phase's voting
    /// window: the informal window for an informal round, the formal
    /// window for a formal one.
    pub open spec fn is_in_time_spec(self, block_time: BlockTime) -> bool {
        match self.voting_type {
            VotingType::Informal =>
                self.state_in_time_spec(block_time) == VotingState::Informal,
            VotingType::Formal =>
                self.state_in_time_spec(block_time) == VotingState::Formal,
        }
    }

    /// Checks if the round is still in its active voting window at
    /// `block_time`.
    pub fn is_in_time(&self, block_time: BlockTime) -> (r: bool)
        requires
            self.wf(),
        ensures
            r == self.is_in_time_spec(block_time),
    {
        let state_now = self.state_in_time(block_time);
        match self.voting_type() {
            VotingType::Informal => state_now == VotingState::Informal,
            VotingType::Formal => state_now == VotingState::Formal,
        }
    }

    /// Bound in-favor stake of the active phase.
    pub open spec fn stake_in_favor_spec(self) -> Balance {
        self.stats().stake_in_favor
    }

    /// Bound against stake of the active phase.
    pub open spec fn stake_against_spec(self) -> Balance {
        self.stats().stake_against
    }

    /// Unbound in-favor stake of the active phase.
    pub open spec fn unbound_stake_in_favor_spec(self) -> Balance {
        self.stats().unbound_stake_in_favor
    }

    /// Unbound against stake of the active phase.
    pub open spec fn unbound_stake_against_spec(self) -> Balance {
        self.stats().unbound_stake_against
    }

    /// Whether the in-favor stake reaches the against stake
    /// (ties favor "in favor").
    pub open spec fn is_in_favor_spec(self) -> bool {
        self.stake_in_favor_spec() >= self.stake_against_spec()
    }

    /// Checks if the in-favor stake surpasses the against stake.
    pub fn is_in_favor(&self) -> (r: bool)
        ensures
            r == self.is_in_favor_spec(),
    {
        match self.voting_type() {
            VotingType::Informal => {
                self.informal_stats.stake_in_favor >= self.informal_stats.stake_against
            }
            VotingType::Formal => {
                self.formal_stats.stake_in_favor >= self.formal_stats.stake_against
            }
        }
    }

    /// The bound stake of the winning side.
    pub open spec fn get_winning_stake_spec(self) -> Balance {
        if self.is_in_favor_spec() {
            self.stake_in_favor_spec()
        } else {
            self.stake_against_spec()
        }
    }

    /// The bound stake of the losing side.
    pub open spec fn get_losing_stake_spec(self) -> Balance {
        if self.is_in_favor_spec() {
            self.stake_against_spec()
        } else {
            self.stake_in_favor_spec()
        }
    }

    /// Returns the amount of reputation staked on the winning side.
    pub fn get_winning_stake(&self) -> (r: Balance)
        ensures
            r == self.get_winning_stake_spec(),
    {
        match (self.voting_type(), self.is_in_favor()) {
            (VotingType::Informal, true) => self.informal_stats.stake_in_favor,
            (VotingType::Informal, false) => self.informal_stats.stake_against,
            (VotingType::Formal, true) => self.formal_stats.stake_in_favor,
            (VotingType::Formal, false) => self.formal_stats.stake_against,
        }
    }

    /// The quorum required in the active phase.
    pub open spec fn get_quorum_spec(self) -> u32 {
        match self.voting_type {
            VotingType::Informal => self.configuration.informal_voting_quorum,
            VotingType::Formal => self.configuration.formal_voting_quorum,
        }
    }

    /// The result of the round given how many voters took part:
    /// `QuorumNotReached` below the quorum, otherwise `InFavor` exactly
    /// when the in-favor stake reaches the against stake.
    pub open spec fn get_result_spec(self, voters_number: u32) -> VotingResult {
        if self.get_quorum_spec() > voters_number {
            VotingResult::QuorumNotReached
        } else if self.is_in_favor_spec() {
            VotingResult::InFavor
        } else {
            VotingResult::Against
        }
    }

    /// Gets the current voting result.
    pub fn get_result(&self, voters_number: u32) -> (r: VotingResult)
        ensures
            r == self.get_result_spec(voters_number),
    {
        if self.get_quorum() > voters_number {
            VotingResult::QuorumNotReached
        } else if self.is_in_favor() {
            VotingResult::InFavor
        } else {
            VotingResult::Against
        }
    }

    /// Adds `stake` to the bound tally of `choice` in the active phase.
    pub fn add_stake(&mut self, stake: Balance, choice: Choice)
        requires
            old(self).stats().stake_in_favor + old(self).stats().stake_against
                + old(self).stats().unbound_stake_in_favor
                + old(self).stats().unbound_stake_against + stake <= u64::MAX,
        ensures
            *final(self) == old(self).with_stats(
                stats_add_bound(old(self).stats(), choice, stake),
            ),
            final(self).stats().wf(),
    {
        match (self.voting_type(), choice) {
            (VotingType::Informal, Choice::InFavor) => {
                self.informal_stats.stake_in_favor = self.informal_stats.stake_in_favor + stake
            }
            (VotingType::Informal, Choice::Against) => {
                self.informal_stats.stake_against = self.informal_stats.stake_against + stake
            }
            (VotingType::Formal, Choice::InFavor) => {
                self.formal_stats.stake_in_favor = self.formal_stats.stake_in_favor + stake
            }
            (VotingType::Formal, Choice::Against) => {
                self.formal_stats.stake_against = self.formal_stats.stake_against + stake
            }
        }
    }

    /// Adds `stake` to the unbound tally of `choice` in the active phase.
    pub fn add_unbound_stake(&mut self, stake: Balance, choice: Choice)
        requires
            old(self).stats().stake_in_favor + old(self).stats().stake_against
                + old(self).stats().unbound_stake_in_favor
                + old(self).stats().unbound_stake_against + stake <= u64::MAX,
        ensures
            *final(self) == old(self).with_stats(
                stats_add_unbound(old(self).stats(), choice, stake),
            ),
            final(self).stats().wf(),
    {
        match (self.voting_type(), choice) {
            (VotingType::Informal, Choice::InFavor) => {
                self.informal_stats.unbound_stake_in_favor =
                    self.informal_stats.unbound_stake_in_favor + stake
            }
            (VotingType::Informal, Choice::Against) => {
                self.informal_stats.unbound_stake_against =
                    self.informal_stats.unbound_stake_against + stake
            }
            (VotingType::Formal, Choice::InFavor) => {
                self.formal_stats.unbound_stake_in_favor =
                    self.formal_stats.unbound_stake_in_favor + stake
            }
            (VotingType::Formal, Choice::Against) => {
                self.formal_stats.unbound_stake_against =
                    self.formal_stats.unbound_stake_against + stake
            }
        }
    }

    /// Counts one more voter for `choice` in the active phase.
    pub fn record_vote(&mut self, choice: Choice)
        requires
            match choice {
                Choice::InFavor => old(self).stats().votes_in_favor < u32::MAX,
                Choice::Against => old(self).stats().votes_against < u32::MAX,
            },
        ensures
            *final(self) == old(self).with_stats(stats_add_vote(old(self).stats(), choice)),
    {
        match (self.voting_type(), choice) {
            (VotingType::Informal, Choice::InFavor) => {
                self.informal_stats.votes_in_favor = self.informal_stats.votes_in_favor + 1
            }
            (VotingType::Informal, Choice::Against) => {
                self.informal_stats.votes_against = self.informal_stats.votes_against + 1
            }
            (VotingType::Formal, Choice::InFavor) => {
                self.formal_stats.votes_in_favor = self.formal_stats.votes_in_favor + 1
            }
            (VotingType::Formal, Choice::Against) => {
                self.formal_stats.votes_against = self.formal_stats.votes_against + 1
            }
        }
    }

    /// Removes `stake` from the bound tally of `choice` in the active
    /// phase. The stake must be covered by that tally; the tallies only
    /// ever hold what was previously added.
    pub fn remove_stake(&mut self, stake: Balance, choice: Choice)
        requires
            match choice {
                Choice::InFavor => stake <= old(self).stats().stake_in_favor,
                Choice::Against => stake <= old(self).stats().stake_against,
            },
        ensures
            *final(self) == old(self).with_stats(
                stats_remove_bound(old(self).stats(), choice, stake),
            ),
    {
        match (self.voting_type(), choice) {
            (VotingType::Informal, Choice::InFavor) => {
                self.informal_stats.stake_in_favor = self.informal_stats.stake_in_favor - stake
            }
            (VotingType::Informal, Choice::Against) => {
                self.informal_stats.stake_against = self.informal_stats.stake_against - stake
            }
            (VotingType::Formal, Choice::InFavor) => {
                self.formal_stats.stake_in_favor = self.formal_stats.stake_in_favor - stake
            }
            (VotingType::Formal, Choice::Against) => {
                self.formal_stats.stake_against = self.formal_stats.stake_against - stake
            }
        }
    }

    /// Removes `stake` from the unbound tally of `choice` in the active
    /// phase.
    pub fn remove_unbound_stake(&mut self, stake: Balance, choice: Choice)
        requires
            match choice {
                Choice::InFavor => stake <= old(self).stats().unbound_stake_in_favor,
                Choice::Against => stake <= old(self).stats().unbound_stake_against,
            },
        ensures
            *final(self) == old(self).with_stats(
                stats_remove_unbound(old(self).stats(), choice, stake),
            ),
    {
        match (self.voting_type(), choice) {
            (VotingType::Informal, Choice::InFavor) => {
                self.informal_stats.unbound_stake_in_favor =
                    self.informal_stats.unbound_stake_in_favor - stake
            }
            (VotingType::Informal, Choice::Against) => {
                self.informal_stats.unbound_stake_against =
                    self.informal_stats.unbound_stake_against - stake
            }
            (VotingType::Formal, Choice::InFavor) => {
                self.formal_stats.unbound_stake_in_favor =
                    self.formal_stats.unbound_stake_in_favor - stake
            }
            (VotingType::Formal, Choice::Against) => {
                self.formal_stats.unbound_stake_against =
                    self.formal_stats.unbound_stake_against - stake
            }
        }
    }

    /// Moves `stake` from the unbound to the bound tally of `choice`:
    /// a move, not a copy, so the total stake is unchanged.
    pub fn bind_stake(&mut self, stake: Balance, choice: Choice)
        requires
            match choice {
                Choice::InFavor => stake <= old(self).stats().unbound_stake_in_favor,
                Choice::Against => stake <= old(self).stats().unbound_stake_against,
            },
            old(self).stats().wf(),
        ensures
            *final(self) == old(self).with_stats(
                stats_add_bound(
                    stats_remove_unbound(old(self).stats(), choice, stake),
                    choice,
                    stake,
                ),
            ),
            final(self).total_stake_spec() == old(self).total_stake_spec(),
    {
        self.remove_unbound_stake(stake, choice);
        self.add_stake(stake, choice);
    }

    /// Sum of bound and unbound stake in the active phase.
    pub open spec fn total_stake_spec(self) -> int {
        self.total_bound_stake_spec() + self.total_unbound_stake_spec()
    }

    /// Sum of the bound tallies in the active phase.
    pub open spec fn total_bound_stake_spec(self) -> int {
        self.stats().stake_in_favor + self.stats().stake_against
    }

    /// Sum of the unbound tallies in the active phase.
    pub open spec fn total_unbound_stake_spec(self) -> int {
        self.stats().unbound_stake_in_favor + self.stats().unbound_stake_against
    }

    /// Gets the sum of bound and unbound stake.
    pub fn total_stake(&self) -> (r: Balance)
        requires
            self.stats().wf(),
        ensures
            r == self.total_stake_spec(),
    {
        self.total_bound_stake() + self.total_unbound_stake()
    }

    /// Gets the total bound stake.
    pub fn total_bound_stake(&self) -> (r: Balance)
        requires
            self.stats().wf(),
        ensures
            r == self.total_bound_stake_spec(),
    {
        match self.voting_type() {
            VotingType::Informal => {
                self.informal_stats.stake_in_favor + self.informal_stats.stake_against
            }
            VotingType::Formal => {
                self.formal_stats.stake_in_favor + self.formal_stats.stake_against
            }
        }
    }

    /// Gets the total unbound stake.
    pub fn total_unbound_stake(&self) -> (r: Balance)
        requires
            self.stats().wf(),
        ensures
            r == self.total_unbound_stake_spec(),
    {
        match self.voting_type() {
            VotingType::Informal => {
                self.informal_stats.unbound_stake_in_favor
                    + self.informal_stats.unbound_stake_against
            }
            VotingType::Formal => {
                self.formal_stats.unbound_stake_in_favor
                    + self.formal_stats.unbound_stake_against
            }
        }
    }

    /// Gets the round's identifier.
    pub fn voting_id(&self) -> (r: VotingId)
        ensures
            r == self.voting_id,
    {
        self.voting_id
    }

    /// Gets the active phase's bound in-favor stake.
    pub fn stake_in_favor(&self) -> (r: Balance)
        ensures
            r == self.stake_in_favor_spec(),
    {
        match self.voting_type() {
            VotingType::Informal => self.informal_stats.stake_in_favor,
            VotingType::Formal => self.formal_stats.stake_in_favor,
        }
    }

    /// Gets the active phase's bound against stake.
    pub fn stake_against(&self) -> (r: Balance)
        ensures
            r == self.stake_against_spec(),
    {
        match self.voting_type() {
            VotingType::Informal => self.informal_stats.stake_against,
            VotingType::Formal => self.formal_stats.stake_against,
        }
    }

    /// Gets a reference to the frozen configuration snapshot.
    pub fn voting_configuration(&self) -> (r: &Configuration)
        ensures
            r == self.configuration,
    {
        &self.configuration
    }

    /// Gets the round's creator.
    pub fn creator(&self) -> (r: &Address)
        ensures
            r == self.creator,
    {
        &self.creator
    }

    /// Gets the stored state.
    pub fn state(&self) -> (r: &VotingState)
        ensures
            r == self.state,
    {
        &self.state
    }

    /// Whether the round is finished or canceled.
    pub open spec fn completed_spec(self) -> bool {
        self.state == VotingState::Finished || self.state == VotingState::Canceled
    }

    /// Indicates if the round is finished or canceled.
    pub fn completed(&self) -> (r: bool)
        ensures
            r == self.completed_spec(),
    {
        self.state == VotingState::Finished || self.state == VotingState::Canceled
    }

    /// Returns the time-derived state at `block_time`.
    pub fn state_in_time(&self, block_time: BlockTime) -> (r: VotingState)
        requires
            self.wf(),
        ensures
            r == self.state_in_time_spec(block_time),
    {
        let informal_voting_start = self.informal_voting_start_time();
        let informal_voting_end = self.informal_voting_end_time();
        let between_voting_end = self.time_between_votings_end_time();
        let voting_end = self.formal_voting_end_time();

        if block_time < informal_voting_start {
            VotingState::Created
        } else if block_time <= informal_voting_end {
            VotingState::Informal
        } else if block_time <= between_voting_end {
            VotingState::BetweenVotings
        } else if block_time <= voting_end {
            VotingState::Formal
        } else {
            VotingState::Finished
        }
    }

    /// Gets the informal phase's tallies.
    pub fn informal_stats(&self) -> (r: &Stats)
        ensures
            r == self.informal_stats,
    {
        &self.informal_stats
    }

    /// Gets the formal phase's tallies.
    pub fn formal_stats(&self) -> (r: &Stats)
        ensures
            r == self.formal_stats,
    {
        &self.formal_stats
    }

    /// Gets the creation time.
    pub fn created_at(&self) -> (r: u64)
        ensures
            r == self.created_at,
    {
        self.created_at
    }

    /// Whether the informal result is close enough to double the pause
    /// before the formal phase.
    pub fn is_result_close(&self) -> (r: bool)
        requires
            self.stats().wf(),
            self.total_stake_spec() > 0,
        ensures
            r == self.is_result_close_spec(),
    {
        let stake_in_favor = self.stake_in_favor() + self.unbound_stake_in_favor();
        let stake_against = self.stake_against() + self.unbound_stake_against();
        let stake_diff = if stake_in_favor >= stake_against {
            stake_in_favor - stake_against
        } else {
            stake_against - stake_in_favor
        };
        let total = self.total_stake();
        proof {
            crate::math::lemma_u64_mul_fits(stake_diff, 100);
            crate::math::lemma_share_le_whole(100, stake_diff, total);
        }
        let stake_diff_percent: u64 =
            (((stake_diff as u128) * 100) / (total as u128)) as u64;
        stake_diff_percent <= self.configuration.voting_clearness_delta
    }

    /// The quorum required in the active phase.
    pub fn get_quorum(&self) -> (r: u32)
        ensures
            r == self.get_quorum_spec(),
    {
        match self.voting_type() {
            VotingType::Informal => self.configuration.informal_voting_quorum,
            VotingType::Formal => self.configuration.formal_voting_quorum,
        }
    }

    /// Gets the active phase's unbound in-favor stake.
    pub fn unbound_stake_in_favor(&self) -> (r: Balance)
        ensures
            r == self.unbound_stake_in_favor_spec(),
    {
        match self.voting_type() {
            VotingType::Informal => self.informal_stats.unbound_stake_in_favor,
            VotingType::Formal => self.formal_stats.unbound_stake_in_favor,
        }
    }

    /// Gets the active phase's unbound against stake.
    pub fn unbound_stake_against(&self) -> (r: Balance)
        ensures
            r == self.unbound_stake_against_spec(),
    {
        match self.voting_type() {
            VotingType::Informal => self.informal_stats.unbound_stake_against,
            VotingType::Formal => self.formal_stats.unbound_stake_against,
        }
    }

    /// Verifies that a ballot can be cast at `block_time`: the round is
    /// not completed and the time lies inside the active phase's window.
    pub fn guard_vote(&self, block_time: BlockTime) -> (r: Result<(), Error>)
        requires
            self.wf(),
        ensures
            match r {
                Ok(()) => !self.completed_spec() && self.is_in_time_spec(block_time),
                Err(e) => {
                    &&& (self.completed_spec() || !self.is_in_time_spec(block_time))
                    &&& (e == Error::VoteOnCompletedVotingNotAllowed
                        || e == Error::VotingWithGivenTypeNotInProgress)
                    &&& (e == Error::VoteOnCompletedVotingNotAllowed
                        <==> self.completed_spec())
                },
            },
    {
        if self.completed() {
            return Err(Error::VoteOnCompletedVotingNotAllowed);
        }
        if self.is_in_time(block_time) {
            Ok(())
        } else {
            Err(Error::VotingWithGivenTypeNotInProgress)
        }
    }

    /// Verifies that the formal voting can be finished at `block_time`:
    /// the round is not completed and the formal window has elapsed.
    pub fn guard_finish_formal_voting(&self, block_time: BlockTime) -> (r: Result<(), Error>)
        requires
            self.wf(),
        ensures
            match r {
                Ok(()) => !self.completed_spec()
                    && self.state_in_time_spec(block_time) == VotingState::Finished,
                Err(e) => {
                    &&& (self.completed_spec()
                        || self.state_in_time_spec(block_time) != VotingState::Finished)
                    &&& (e == Error::FinishingCompletedVotingNotAllowed
                        || e == Error::FormalVotingNotYetFinished)
                    &&& (e == Error::FinishingCompletedVotingNotAllowed
                        <==> self.completed_spec())
                },
            },
    {
        if self.completed() {
            return Err(Error::FinishingCompletedVotingNotAllowed);
        }
        if self.state_in_time(block_time) == VotingState::Finished {
            Ok(())
        } else {
            Err(Error::FormalVotingNotYetFinished)
        }
    }
}

use crate::errors::Error;

/// Summary of a finished voting phase.
#[derive(Clone, Copy, PartialEq, Eq, Structural, Debug)]
pub struct VotingSummary {
    /// The phase's result.
    pub result: VotingResult,
    /// The phase the summary refers to.
    pub ty: VotingType,
    /// The summarized round.
    pub voting_id: VotingId,
}

impl VotingSummary {
    /// Whether the summarized result rejects the round.
    pub open spec fn is_rejected_spec(self) -> bool {
        self.result == VotingResult::Against || self.result == VotingResult::QuorumNotReached
    }

    /// Creates a new summary.
    pub fn new(result: VotingResult, ty: VotingType, voting_id: VotingId) -> (r: Self)
        ensures
            r == (VotingSummary { result, ty, voting_id }),
    {
        Self { result, ty, voting_id }
    }

    /// Indicates if the whole voting process is over: a formal phase
    /// always ends it, an informal phase only when it was rejected.
    pub fn is_voting_process_finished(&self) -> (r: bool)
        ensures
            r == match self.ty {
                VotingType::Informal => self.is_rejected_spec(),
                VotingType::Formal => true,
            },
    {
        match self.ty {
            VotingType::Informal => self.is_rejected(),
            VotingType::Formal => true,
        }
    }

    /// Indicates if the summary refers to a formal phase.
    pub fn is_formal(&self) -> (r: bool)
        ensures
            r == (self.ty == VotingType::Formal),
    {
        self.voting_type() == VotingType::Formal
    }

    /// Returns the voting result.
    pub fn result(&self) -> (r: VotingResult)
        ensures
            r == self.result,
    {
        self.result
    }

    /// Gets the phase the summary refers to.
    pub fn voting_type(&self) -> (r: VotingType)
        ensures
            r == self.ty,
    {
        self.ty
    }

    fn is_rejected(&self) -> (r: bool)
        ensures
            r == self.is_rejected_spec(),
    {
        self.result == VotingResult::Against || self.result == VotingResult::QuorumNotReached
    }
}

} // verus!
