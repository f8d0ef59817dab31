//! Ballots: one vote of one account in one phase of one voting round.

use vstd::prelude::*;

verus! {

use crate::types::Address;
use crate::types::Balance;
use crate::types::VotingId;
use crate::voting_state_machine::VotingType;

/// The option a voter selects.
#[derive(Clone, Copy, PartialEq, Eq, Structural, Debug)]
pub enum Choice {
    /// `No` vote.
    Against,
    /// `Yes` vote.
    InFavor,
}

impl Choice {
    /// Whether this is a `Yes` vote.
    pub fn is_in_favor(&self) -> (r: bool)
        ensures
            r == (*self == Choice::InFavor),
    {
        match self {
            Choice::InFavor => true,
            Choice::Against => false,
        }
    }
}

/// One account's vote. Created on cast; only the `canceled` flag is
/// mutated afterward (when the voter is slashed).
#[derive(Clone, Copy, PartialEq, Eq, Structural, Debug)]
pub struct Ballot {
    /// The voter's account.
    pub voter: Address,
    /// The voting round the ballot belongs to.
    pub voting_id: VotingId,
    /// The phase the ballot was cast in.
    pub voting_type: VotingType,
    /// The selected option.
    pub choice: Choice,
    /// Vote power, in reputation.
    pub stake: Balance,
    /// Whether the stake counts toward quorum but is not locked to a side
    /// in the ledger (reputation minted for an external worker).
    pub unbound: bool,
    /// Whether the ballot was canceled by slashing.
    pub canceled: bool,
}

impl Ballot {
    /// Whether this ballot currently adds `stake` to the bound tally for
    /// `choice`: it was neither canceled nor cast unbound.
    pub open spec fn counts_bound(self, choice: Choice) -> bool {
        !self.canceled && !self.unbound && self.choice == choice
    }

    /// Whether this ballot currently adds `stake` to the unbound tally
    /// for `choice`.
    pub open spec fn counts_unbound(self, choice: Choice) -> bool {
        !self.canceled && self.unbound && self.choice == choice
    }
}

/// The part of a ballot the stake ledger needs: who staked how much.
#[derive(Clone, Copy, PartialEq, Eq, Structural, Debug)]
pub struct ShortenedBallot {
    /// The voter's account.
    pub voter: Address,
    /// The staked amount.
    pub stake: Balance,
}

} // verus!
