//! The immutable configuration snapshot.
//!
//! Governance parameters are copied into every job offer and voting round
//! at creation time, so in-flight processes are unaffected by later
//! parameter changes. Phase boundaries are pure functions of this snapshot
//! and the creation time; nothing is separately persisted.

use vstd::prelude::*;

verus! {

/// Upper bound on every time-valued parameter and timestamp the core
/// accepts. Five boundary summands plus one doubling stay below `u64::MAX`,
/// so phase-boundary arithmetic never overflows.
pub const TIME_BOUND: u64 = 0x0400_0000_0000_0000;

/// Denominator of all per-mille ratios (quorum, policing rate,
/// payment ratio, slashing ratio).
pub const RATIO_SCALE: u64 = 1000;

/// A frozen copy of the governance parameters, taken when a job offer or
/// voting round is created.
#[derive(Clone, Copy, PartialEq, Eq, Structural, Debug)]
pub struct Configuration {
    /// Fiat floor under which a job offer's anti-spam deposit is rejected.
    pub post_job_dos_fee: Balance,
    /// Length of the auction window reserved to onboarded workers.
    pub internal_auction_time: BlockTime,
    /// Length of the auction window open to external workers.
    pub public_auction_time: BlockTime,
    /// Per-mille share of a payment pool reserved for all reputation
    /// holders when an external worker did not ask to be onboarded.
    pub default_policing_rate: u64,
    /// Reputation minted per unit of native currency staked.
    pub reputation_conversion_rate: u64,
    /// Whether forum users must pass KYC.
    pub forum_kyc_required: bool,
    /// Number of voters needed for an informal round to count.
    pub informal_voting_quorum: u32,
    /// Number of voters needed for a formal round to count.
    pub formal_voting_quorum: u32,
    /// Length of the informal voting phase.
    pub informal_voting_time: BlockTime,
    /// Length of the formal voting phase.
    pub formal_voting_time: BlockTime,
    /// Whether informal ballots lock reputation.
    pub informal_stake_reputation: bool,
    /// Pause between the informal and the formal phase.
    pub time_between_informal_and_formal_voting: BlockTime,
    /// How long a bid stays binding before its bidder may cancel it.
    pub va_bid_acceptance_timeout: BlockTime,
    /// Whether onboarded workers may bid during the public auction.
    pub va_can_bid_on_public_auction: bool,
    /// Whether payment is also distributed to holders who did not vote.
    pub distribute_payment_to_non_voters: bool,
    /// Per-mille closeness threshold; a closer informal result doubles the
    /// pause before the formal phase.
    pub voting_clearness_delta: u64,
    /// Delay between round creation and the start of the informal phase.
    pub voting_delay: BlockTime,
    /// Per-mille share of a payment pool sent to the governance wallet.
    pub bid_escrow_payment_ratio: u64,
    /// Account that receives the governance share.
    pub bid_escrow_wallet_address: Address,
    /// Number of onboarded voting associates at snapshot time.
    pub total_onboarded: u64,
    /// Whether the round votes on a job escrow outcome.
    pub is_bid_escrow: bool,
    /// Whether only onboarded accounts may create a round.
    pub only_va_can_create: bool,
    /// Whether the creator's first ballot is cast at round creation.
    pub cast_first_vote: bool,
    /// Set once the pause before the formal phase has been doubled for
    /// this round; the doubling happens at most once.
    pub time_between_votings_doubled: bool,
}

use crate::types::Address;
use crate::types::Balance;
use crate::types::BlockTime;

impl Configuration {
    /// Bounds every snapshot must satisfy: time parameters small enough
    /// that phase-boundary sums fit in `u64`, ratios within scale.
    pub open spec fn wf(self) -> bool {
        &&& self.internal_auction_time <= TIME_BOUND
        &&& self.public_auction_time <= TIME_BOUND
        &&& self.informal_voting_time <= TIME_BOUND
        &&& self.formal_voting_time <= TIME_BOUND
        &&& self.time_between_informal_and_formal_voting <= 2 * TIME_BOUND
        &&& !self.time_between_votings_doubled
            ==> self.time_between_informal_and_formal_voting <= TIME_BOUND
        &&& self.va_bid_acceptance_timeout <= TIME_BOUND
        &&& self.voting_delay <= TIME_BOUND
        &&& self.default_policing_rate <= RATIO_SCALE
        &&& self.bid_escrow_payment_ratio <= RATIO_SCALE
    }

    /// Doubles the pause between the informal and the formal phase, for
    /// this snapshot only. Called once when an informal result is close.
    pub fn double_time_between_votings(&mut self)
        requires
            old(self).wf(),
            !old(self).time_between_votings_doubled,
        ensures
            final(self).wf(),
            final(self).time_between_informal_and_formal_voting
                == 2 * old(self).time_between_informal_and_formal_voting,
            final(self).time_between_votings_doubled,
            *final(self) == (Configuration {
                time_between_informal_and_formal_voting:
                    final(self).time_between_informal_and_formal_voting,
                time_between_votings_doubled: true,
                ..*old(self)
            }),
    {
        self.time_between_informal_and_formal_voting =
            2 * self.time_between_informal_and_formal_voting;
        self.time_between_votings_doubled = true;
    }

    /// Whether the pause before the formal phase was doubled for this round.
    pub fn should_double_time_between_votings(&self) -> (r: bool)
        ensures
            r == self.time_between_votings_doubled,
    {
        self.time_between_votings_doubled
    }

    /// Fiat equivalent of `amount` of native currency at `rate`
    /// (fiat units per `RATIO_SCALE` native units, rounded down).
    pub open spec fn fiat_value_of(amount: Balance, rate: u64) -> int {
        amount * rate / (RATIO_SCALE as int)
    }

    /// Converts a native-currency amount to fiat at the given rate.
    pub fn convert_to_fiat(&self, amount: Balance, rate: u64) -> (r: Option<Balance>)
        ensures
            match r {
                Some(v) => v == Self::fiat_value_of(amount, rate)
                    && Self::fiat_value_of(amount, rate) <= u64::MAX,
                None => Self::fiat_value_of(amount, rate) > u64::MAX,
            },
    {
        proof {
            crate::math::lemma_u64_mul_fits(amount, rate);
        }
        let wide: u128 = (amount as u128) * (rate as u128) / (RATIO_SCALE as u128);
        if wide > u64::MAX as u128 {
            None
        } else {
            Some(wide as u64)
        }
    }

    /// Whether a fiat-converted anti-spam deposit is below the floor.
    pub fn is_post_job_dos_fee_too_low(&self, fiat_value: Balance) -> (r: bool)
        ensures
            r == (fiat_value < self.post_job_dos_fee),
    {
        fiat_value < self.post_job_dos_fee
    }

    /// The per-mille share `ratio` takes of `amount`, rounded down.
    pub open spec fn ratio_of(amount: Balance, ratio: u64) -> int {
        amount * ratio / (RATIO_SCALE as int)
    }

    /// Applies the governance payment ratio to a payment pool.
    pub fn apply_bid_escrow_payment_ratio_to(&self, amount: Balance) -> (r: Balance)
        requires
            self.wf(),
        ensures
            r == Self::ratio_of(amount, self.bid_escrow_payment_ratio),
            r <= amount,
    {
        proof {
            crate::math::lemma_u64_mul_fits(amount, self.bid_escrow_payment_ratio);
            lemma_ratio_bounded(amount, self.bid_escrow_payment_ratio);
        }
        (((amount as u128) * (self.bid_escrow_payment_ratio as u128)
            / (RATIO_SCALE as u128)) as u64)
    }

    /// Applies the policing rate to a payment remainder.
    pub fn apply_default_policing_rate_to(&self, amount: Balance) -> (r: Balance)
        requires
            self.wf(),
        ensures
            r == Self::ratio_of(amount, self.default_policing_rate),
            r <= amount,
    {
        proof {
            crate::math::lemma_u64_mul_fits(amount, self.default_policing_rate);
            lemma_ratio_bounded(amount, self.default_policing_rate);
        }
        (((amount as u128) * (self.default_policing_rate as u128)
            / (RATIO_SCALE as u128)) as u64)
    }
}

/// A per-mille share never exceeds the whole amount.
pub proof fn lemma_ratio_bounded(amount: Balance, ratio: u64)
    requires
        ratio <= RATIO_SCALE,
    ensures
        0 <= Configuration::ratio_of(amount, ratio) <= amount,
{
    crate::math::lemma_share_le_whole(amount, ratio, RATIO_SCALE);
}

} // verus!
