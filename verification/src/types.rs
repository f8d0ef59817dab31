//! Base identifiers and value types shared by every subsystem.

use vstd::prelude::*;

verus! {

/// An account or contract identifier. The host resolves its native address
/// format to a dense index; the core only ever compares identifiers and
/// uses them as ledger keys.
#[derive(Clone, Copy, PartialEq, Eq, PartialOrd, Ord, Hash, Structural, Debug)]
pub struct Address(pub u32);

/// Token amount (reputation or native currency).
pub type Balance = u64;

/// Host-supplied block timestamp, in milliseconds.
pub type BlockTime = u64;

/// Identifier of a voting round.
pub type VotingId = u32;

/// Identifier of a bid.
pub type BidId = u32;

/// Identifier of a job offer.
pub type JobOfferId = u32;

/// Identifier of a job.
pub type JobId = u32;

/// Hash of the document a worker submits as proof, or a voting is
/// about. The host computes the cryptographic hash; the core only
/// stores and compares the value.
pub type DocumentHash = u64;

/// Why a native-currency transfer is requested from the host.
#[derive(Clone, Copy, PartialEq, Eq, Structural, Debug)]
pub enum TransferReason {
    /// A bid's native-currency stake goes back to the bidder.
    BidStakeReturn,
    /// The anti-spam deposit goes back to the job poster.
    DOSFeeReturn,
    /// The governance share of a payment pool.
    GovernancePayment,
    /// The worker's share of a payment pool.
    WorkerPayment,
    /// A pro-rata share of a redistributed pool.
    Redistribution,
    /// The job payment goes back to the poster.
    JobPaymentReturn,
}

/// A native-currency transfer the core asks the host to perform.
/// The core never moves tokens itself; it returns these instructions.
#[derive(Clone, Copy, PartialEq, Eq, Structural, Debug)]
pub struct Transfer {
    /// Receiving account.
    pub to: Address,
    /// Amount to transfer.
    pub amount: Balance,
    /// Why the transfer happens.
    pub reason: TransferReason,
}

/// Sum of the amounts a list of (account, amount) orders attributes to
/// account `a`.
pub open spec fn pays_of(s: Seq<(Address, Balance)>, a: int) -> int
    decreases s.len(),
{
    if s.len() == 0 {
        0
    } else {
        pays_of(s.drop_last(), a)
            + if s.last().0.0 == a {
                s.last().1 as int
            } else {
                0
            }
    }
}

/// Sum of all amounts of a list of (account, amount) orders.
pub open spec fn sum_amounts(s: Seq<(Address, Balance)>) -> int
    decreases s.len(),
{
    if s.len() == 0 {
        0
    } else {
        sum_amounts(s.drop_last()) + s.last().1
    }
}

/// A sum of amounts is never negative.
pub proof fn lemma_sum_amounts_nonneg(s: Seq<(Address, Balance)>)
    ensures
        sum_amounts(s) >= 0,
    decreases s.len(),
{
    if s.len() > 0 {
        lemma_sum_amounts_nonneg(s.drop_last());
    }
}

/// A prefix never sums to more than the whole list.
pub proof fn lemma_sum_amounts_prefix(s: Seq<(Address, Balance)>, k: int)
    requires
        0 <= k <= s.len(),
    ensures
        0 <= sum_amounts(s.take(k)) <= sum_amounts(s),
    decreases s.len(),
{
    if k == s.len() {
        assert(s.take(k) =~= s);
        lemma_sum_amounts_nonneg(s);
    } else {
        assert(s.take(k) =~= s.drop_last().take(k));
        lemma_sum_amounts_prefix(s.drop_last(), k);
    }
}

/// A list without an entry for `a` attributes nothing to `a`.
pub proof fn lemma_pays_absent(s: Seq<(Address, Balance)>, a: int)
    requires
        forall|k: int| 0 <= k < s.len() ==> (#[trigger] s[k]).0.0 != a,
    ensures
        pays_of(s, a) == 0,
    decreases s.len(),
{
    if s.len() > 0 {
        assert(forall|k: int| 0 <= k < s.drop_last().len()
            ==> s.drop_last()[k] == s[k]);
        lemma_pays_absent(s.drop_last(), a);
    }
}

} // verus!
