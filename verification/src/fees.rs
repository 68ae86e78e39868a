//! Fee engine: splits a gross trade amount into a creator portion and a
//! treasury portion, given the protocol's two basis-point parameters.

use vstd::arithmetic::div_mod::{
    lemma_div_is_ordered, lemma_div_multiples_vanish, lemma_div_pos_is_pos,
};
use vstd::arithmetic::mul::{lemma_mul_inequality, lemma_mul_nonnegative};
use vstd::prelude::*;

verus! {

/// The total fee taken from a gross amount: `floor(amount * total_bps / 10000)`,
/// and zero when either the rate or the amount is zero.
pub open spec fn total_fee_of(amount: int, total_bps: int) -> int {
    if total_bps == 0 || amount == 0 {
        0
    } else {
        amount * total_bps / 10000
    }
}

/// The creator's portion of the total fee: `floor(total_fee * share_bps / total_bps)`.
/// The share is read as a fraction of `total_bps`, not of 10000.
pub open spec fn creator_fee_of(amount: int, total_bps: int, share_bps: int) -> int {
    let total_fee = total_fee_of(amount, total_bps);
    if total_fee == 0 {
        0
    } else {
        total_fee * share_bps / total_bps
    }
}

/// The treasury's portion: whatever the creator's rounding left of the total fee.
pub open spec fn treasury_fee_of(amount: int, total_bps: int, share_bps: int) -> int {
    total_fee_of(amount, total_bps) - creator_fee_of(amount, total_bps, share_bps)
}

/// Splits `amount` into `(creator_fee, treasury_fee)`.
///
/// Returns `(0, 0)` when the rate or the amount is zero, and also when the
/// total fee floors to zero; otherwise the two portions sum to exactly
/// `floor(amount * total_bps / 10000)`.
pub fn calculate_fees(amount: u128, total_bps: u64, creator_share_of_total_bps: u64) -> (r: (
    u128,
    u128,
))
    requires
        amount * total_bps <= u128::MAX,
        total_fee_of(amount as int, total_bps as int) * creator_share_of_total_bps <= u128::MAX,
        creator_fee_of(amount as int, total_bps as int, creator_share_of_total_bps as int)
            <= total_fee_of(amount as int, total_bps as int),
    ensures
        r.0 == creator_fee_of(amount as int, total_bps as int, creator_share_of_total_bps as int),
        r.1 == treasury_fee_of(amount as int, total_bps as int, creator_share_of_total_bps as int),
{
    if total_bps == 0 || amount == 0 {
        return (0, 0);
    }
    let total_fee: u128 = (amount * (total_bps as u128)) / 10000;
    if total_fee == 0 {
        return (0, total_fee);
    }
    let creator_fee: u128 = (total_fee * (creator_share_of_total_bps as u128))
        / (total_bps as u128);
    let treasury_fee: u128 = total_fee - creator_fee;
    (creator_fee, treasury_fee)
}

/// Fee-split correctness: for admissible rates the two portions are
/// non-negative, sum to the total fee exactly, and the total fee never
/// exceeds the amount itself.
pub proof fn lemma_fee_split_correct(amount: int, total_bps: int, share_bps: int)
    requires
        0 <= amount,
        0 <= total_bps <= 10000,
        0 <= share_bps <= total_bps,
    ensures
        creator_fee_of(amount, total_bps, share_bps) + treasury_fee_of(
            amount,
            total_bps,
            share_bps,
        ) == total_fee_of(amount, total_bps),
        0 <= creator_fee_of(amount, total_bps, share_bps),
        creator_fee_of(amount, total_bps, share_bps) <= total_fee_of(amount, total_bps),
        0 <= total_fee_of(amount, total_bps) <= amount,
        0 < total_bps ==> creator_fee_of(amount, total_bps, share_bps) + treasury_fee_of(
            amount,
            total_bps,
            share_bps,
        ) == amount * total_bps / 10000,
{
    lemma_total_fee_bounds(amount, total_bps);
    let total_fee = total_fee_of(amount, total_bps);
    if total_fee != 0 {
        lemma_mul_nonnegative(total_fee, share_bps);
        lemma_div_pos_is_pos(total_fee * share_bps, total_bps);
        lemma_mul_inequality(share_bps, total_bps, total_fee);
        assert(share_bps * total_fee == total_fee * share_bps) by (nonlinear_arith);
        assert(total_bps * total_fee == total_fee * total_bps) by (nonlinear_arith);
        lemma_div_is_ordered(total_fee * share_bps, total_fee * total_bps, total_bps);
        lemma_div_multiples_vanish(total_fee, total_bps);
    }
}

/// The total fee is between zero and the amount whenever the rate is at
/// most 10000 basis points.
pub proof fn lemma_total_fee_bounds(amount: int, total_bps: int)
    requires
        0 <= amount,
        0 <= total_bps <= 10000,
    ensures
        0 <= total_fee_of(amount, total_bps) <= amount,
{
    if total_bps != 0 && amount != 0 {
        lemma_mul_nonnegative(amount, total_bps);
        lemma_div_pos_is_pos(amount * total_bps, 10000);
        lemma_mul_inequality(total_bps, 10000, amount);
        assert(total_bps * amount == amount * total_bps) by (nonlinear_arith);
        assert(10000 * amount == amount * 10000) by (nonlinear_arith);
        lemma_div_is_ordered(amount * total_bps, amount * 10000, 10000);
        lemma_div_multiples_vanish(amount, 10000);
    }
}

} // verus!
