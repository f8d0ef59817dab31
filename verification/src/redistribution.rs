//! The redistribution engine: splits a settled job's payment pool and
//! computes the pro-rata shares of the native-currency pools.
//!
//! All splits use floor division; the rounding remainder is an
//! accepted loss, never redistributed.

use vstd::prelude::*;

verus! {

use crate::configuration::Configuration;
use crate::configuration::RATIO_SCALE;
use crate::reputation::AggregatedBalance;
use crate::types::Balance;
use crate::types::Transfer;
use crate::types::TransferReason;

/// How a settled job's payment pool is split.
#[derive(Clone, Copy, PartialEq, Eq, Structural, Debug)]
pub struct PaymentSplit {
    /// `payment_pool * bid_escrow_payment_ratio`, for the governance
    /// wallet.
    pub governance: Balance,
    /// Reserved for pro-rata distribution over all reputation holders.
    pub va_pool: Balance,
    /// Paid directly to the worker.
    pub worker: Balance,
}

impl PaymentSplit {
    /// The exact split of `payment_pool`: first the governance share,
    /// then — only for an external worker who did not ask to be
    /// onboarded — the policing share of the remainder; the worker
    /// keeps the rest. For (current or future) voting associates the
    /// whole remainder goes to the associates' pool.
    pub open spec fn split_spec(
        payment_pool: Balance,
        configuration: Configuration,
        worker_is_va: bool,
        onboard: bool,
    ) -> PaymentSplit {
        let governance = Configuration::ratio_of(
            payment_pool,
            configuration.bid_escrow_payment_ratio,
        );
        let remaining = payment_pool - governance;
        if !worker_is_va && !onboard {
            let va_pool = Configuration::ratio_of(
                remaining as u64,
                configuration.default_policing_rate,
            );
            PaymentSplit {
                governance: governance as u64,
                va_pool: va_pool as u64,
                worker: (remaining - va_pool) as u64,
            }
        } else {
            PaymentSplit {
                governance: governance as u64,
                va_pool: remaining as u64,
                worker: 0,
            }
        }
    }

    /// Computes the split of a payment pool.
    pub fn split(
        payment_pool: Balance,
        configuration: &Configuration,
        worker_is_va: bool,
        onboard: bool,
    ) -> (r: PaymentSplit)
        requires
            configuration.wf(),
        ensures
            r == Self::split_spec(payment_pool, *configuration, worker_is_va, onboard),
            r.governance + r.va_pool + r.worker == payment_pool,
    {
        let governance = configuration.apply_bid_escrow_payment_ratio_to(payment_pool);
        let remaining = payment_pool - governance;
        if !worker_is_va && !onboard {
            let va_pool = configuration.apply_default_policing_rate_to(remaining);
            PaymentSplit { governance, va_pool, worker: remaining - va_pool }
        } else {
            PaymentSplit { governance, va_pool: remaining, worker: 0 }
        }
    }
}

/// The three parts of a payment split always recompose the pool
/// exactly: the rounding losses of the two ratios stay inside the
/// worker's (or the associates') part, never outside the pool.
pub proof fn lemma_split_exhausts_pool(
    payment_pool: Balance,
    configuration: Configuration,
    worker_is_va: bool,
    onboard: bool,
)
    requires
        configuration.wf(),
    ensures
        ({
            let s = PaymentSplit::split_spec(payment_pool, configuration, worker_is_va, onboard);
            &&& s.governance + s.va_pool + s.worker == payment_pool
            &&& s.governance
                == payment_pool * configuration.bid_escrow_payment_ratio
                    / (RATIO_SCALE as int)
            &&& (!worker_is_va && !onboard ==> s.va_pool
                == (payment_pool - s.governance) * configuration.default_policing_rate
                    / (RATIO_SCALE as int))
        }),
{
    crate::configuration::lemma_ratio_bounded(
        payment_pool,
        configuration.bid_escrow_payment_ratio,
    );
    let governance = Configuration::ratio_of(
        payment_pool,
        configuration.bid_escrow_payment_ratio,
    );
    crate::configuration::lemma_ratio_bounded(
        (payment_pool - governance) as u64,
        configuration.default_policing_rate,
    );
}

/// The governance share of `amount`, and the remainder the rest of the
/// settlement distributes.
pub fn redistribute_to_governance(amount: Balance, configuration: &Configuration) -> (r: (
    Transfer,
    Balance,
))
    requires
        configuration.wf(),
    ensures
        r.0 == (Transfer {
            to: configuration.bid_escrow_wallet_address,
            amount: Configuration::ratio_of(
                amount,
                configuration.bid_escrow_payment_ratio,
            ) as u64,
            reason: TransferReason::GovernancePayment,
        }),
        r.0.amount + r.1 == amount,
{
    let governance_wallet_payment = configuration.apply_bid_escrow_payment_ratio_to(amount);
    let transfer = Transfer {
        to: configuration.bid_escrow_wallet_address,
        amount: governance_wallet_payment,
        reason: TransferReason::GovernancePayment,
    };
    (transfer, amount - governance_wallet_payment)
}

/// Pro-rata transfer orders for distributing `to_redistribute` over
/// all token holders: each holder gets
/// `to_redistribute * balance / total_supply`, rounded down.
pub fn redistribute_cspr_to_all_vas(
    to_redistribute: Balance,
    all_balances: &AggregatedBalance,
) -> (r: Vec<Transfer>)
    requires
        all_balances.total_supply > 0,
        forall|i: int| 0 <= i < all_balances.balances@.len()
            ==> (#[trigger] all_balances.balances@[i]).1 <= all_balances.total_supply,
    ensures
        r@.len() == all_balances.balances@.len(),
        forall|i: int| 0 <= i < r@.len()
            ==> r@[i] == (Transfer {
                to: all_balances.balances@[i].0,
                amount: (to_redistribute * all_balances.balances@[i].1
                    / (all_balances.total_supply as int)) as u64,
                reason: TransferReason::Redistribution,
            }),
        forall|i: int| 0 <= i < r@.len() ==> (#[trigger] r@[i]).amount <= to_redistribute,
{
    let total_supply = all_balances.total_supply;
    let mut transfers: Vec<Transfer> = Vec::new();
    let mut i: usize = 0;
    while i < all_balances.balances.len()
        invariant
            total_supply == all_balances.total_supply,
            total_supply > 0,
            forall|k: int| 0 <= k < all_balances.balances@.len()
                ==> (#[trigger] all_balances.balances@[k]).1 <= total_supply,
            i <= all_balances.balances@.len(),
            transfers@.len() == i,
            forall|k: int| 0 <= k < i
                ==> transfers@[k] == (Transfer {
                    to: all_balances.balances@[k].0,
                    amount: (to_redistribute * all_balances.balances@[k].1
                        / (total_supply as int)) as u64,
                    reason: TransferReason::Redistribution,
                }),
            forall|k: int| 0 <= k < i
                ==> (#[trigger] transfers@[k]).amount <= to_redistribute,
        decreases all_balances.balances@.len() - i,
    {
        let entry = all_balances.balances[i];
        proof {
            crate::math::lemma_u64_mul_fits(to_redistribute, entry.1);
            crate::math::lemma_share_le_whole(to_redistribute, entry.1, total_supply);
        }
        let amount: u64 = (((to_redistribute as u128) * (entry.1 as u128))
            / (total_supply as u128)) as u64;
        transfers.push(Transfer { to: entry.0, amount, reason: TransferReason::Redistribution });
        i += 1;
    }
    transfers
}

} // verus!
