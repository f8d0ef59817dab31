//! Shared arithmetic lemmas for the proportional-share computations.
//! All payout formulas have the shape `amount * part / whole` with
//! `part <= whole`; these lemmas bound such products and quotients.

use vstd::prelude::*;

verus! {

/// The product of two `u64` values fits in a `u128`.
pub proof fn lemma_u64_mul_fits(a: u64, b: u64)
    ensures
        a * b <= u128::MAX,
{
    assert(a * b <= u64::MAX * u64::MAX) by (nonlinear_arith)
        requires a <= u64::MAX, b <= u64::MAX;
}

/// `amount * part / whole` is at most `amount` whenever `part <= whole`.
pub proof fn lemma_share_le_whole(amount: u64, part: u64, whole: u64)
    requires
        part <= whole,
        0 < whole,
    ensures
        0 <= amount * part / (whole as int) <= amount,
{
    assert(amount * part <= amount * whole) by (nonlinear_arith)
        requires part <= whole, 0 <= amount;
    assert(amount * whole / (whole as int) == amount) by (nonlinear_arith)
        requires 0 < whole, 0 <= amount;
    assert(amount * part / (whole as int) <= amount * whole / (whole as int))
        by (nonlinear_arith)
        requires amount * part <= amount * whole, 0 < whole;
    assert(0 <= amount * part) by (nonlinear_arith)
        requires 0 <= amount, 0 <= part;
    assert(0 <= amount * part / (whole as int)) by (nonlinear_arith)
        requires 0 <= amount * part, 0 < whole;
}

/// Floor division distributes over addition with a loss: the sum of
/// two quotients never exceeds the quotient of the sum.
pub proof fn lemma_div_sum_le(a: int, b: int, d: int)
    requires
        0 <= a,
        0 <= b,
        0 < d,
    ensures
        a / d + b / d <= (a + b) / d,
{
    vstd::arithmetic::div_mod::lemma_fundamental_div_mod(a, d);
    vstd::arithmetic::div_mod::lemma_mod_bound(a, d);
    vstd::arithmetic::div_mod::lemma_hoist_over_denominator(b, a / d, d as nat);
    assert(b + (a / d) * d <= a + b);
    lemma_div_monotonic(b + (a / d) * d, a + b, d);
}

/// Division by a positive divisor is monotonic in the dividend.
pub proof fn lemma_div_monotonic(a: int, b: int, d: int)
    requires
        a <= b,
        0 < d,
    ensures
        a / d <= b / d,
{
    assert(a / d <= b / d) by (nonlinear_arith)
        requires a <= b, 0 < d;
}

} // verus!
