//! Curve engine: the per-mint reserve state and the constant-product
//! trade arithmetic, together with the rounding-drift lemmas that make the
//! pricing safe for the curve.

use crate::AccountId;
use vstd::arithmetic::div_mod::{
    lemma_div_by_multiple,
    lemma_div_is_ordered, lemma_div_multiples_vanish, lemma_div_pos_is_pos,
    lemma_fundamental_div_mod, lemma_mod_division_less_than_divisor,
};
use vstd::arithmetic::mul::{lemma_mul_inequality, lemma_mul_upper_bound};
use vstd::prelude::*;

verus! {

/// Reserve and lifecycle state of one launched mint.
///
/// The virtual reserves exist only for pricing; they start at a bootstrap
/// offset above the real escrowed balance and from then on move in lockstep
/// with it, so `real_sol_reserves <= virtual_sol_reserves` always.
pub struct BondingCurve {
    pub creator: AccountId,
    pub token_mint: AccountId,
    pub token_vault: AccountId,
    pub virtual_sol_reserves: u64,
    pub virtual_token_reserves: u64,
    pub real_sol_reserves: u64,
    pub is_completed: bool,
    pub dex_pool: AccountId,
    pub creator_fees_owed: u64,
    pub bump: u8,
}

impl BondingCurve {
    /// Well-formedness: the settlement side of the pricing pair is never
    /// zero (the bootstrap offset guarantees it at creation and trades keep
    /// it), and the real reserve never exceeds the virtual one.
    pub open spec fn wf(self) -> bool {
        &&& 1 <= self.virtual_sol_reserves
        &&& self.real_sol_reserves <= self.virtual_sol_reserves
    }

    /// The constant-product value `k` the curve prices against.
    pub open spec fn k(self) -> int {
        self.virtual_sol_reserves * self.virtual_token_reserves
    }

    /// Tokens a buyer receives for `sol_in` settlement units: the token
    /// reserve drops to `floor(k / (x + sol_in))` and the buyer gets the
    /// difference.
    pub open spec fn spec_buy_output(self, sol_in: int) -> int {
        self.virtual_token_reserves - self.k() / (self.virtual_sol_reserves + sol_in)
    }

    /// Settlement a seller receives for `tokens_in` tokens: the settlement
    /// reserve rises to `ceil(k / (y + tokens_in))`, so the payout is
    /// rounded down, clamped at zero, and zero outright from an empty
    /// reserve pair.
    pub open spec fn spec_sell_output(self, tokens_in: int) -> int {
        if self.virtual_sol_reserves == 0 || self.virtual_token_reserves == 0 {
            0
        } else {
            let new_y = self.virtual_token_reserves + tokens_in;
            let new_x = (self.k() + new_y - 1) / new_y;
            if new_x <= self.virtual_sol_reserves {
                self.virtual_sol_reserves - new_x
            } else {
                0
            }
        }
    }

    pub fn get_buy_output(&self, sol_in: u64) -> (r: u64)
        requires
            1 <= self.virtual_sol_reserves + sol_in,
        ensures
            r == self.spec_buy_output(sol_in as int),
            r <= self.virtual_token_reserves,
    {
        let x = self.virtual_sol_reserves as u128;
        let y = self.virtual_token_reserves as u128;
        proof {
            lemma_mul_upper_bound(x as int, u64::MAX as int, y as int, u64::MAX as int);
        }
        let k = x * y;
        let new_x = x + sol_in as u128;
        let quot = k / new_x;
        proof {
            lemma_mul_inequality(x as int, new_x as int, y as int);
            lemma_div_is_ordered(k as int, (new_x as int) * (y as int), new_x as int);
            lemma_div_multiples_vanish(y as int, new_x as int);
        }
        (y - quot) as u64
    }

    pub fn get_sell_output(&self, tokens_in: u64) -> (r: u64)
        ensures
            r == self.spec_sell_output(tokens_in as int),
            r <= self.virtual_sol_reserves,
            0 < r ==> r < self.virtual_sol_reserves,
    {
        let x = self.virtual_sol_reserves as u128;
        let y = self.virtual_token_reserves as u128;
        if x == 0 || y == 0 {
            return 0;
        }
        proof {
            lemma_mul_upper_bound(x as int, u64::MAX as int, y as int, u64::MAX as int);
        }
        let k = x * y;
        let new_y = y + tokens_in as u128;
        let new_x = (k + new_y - 1) / new_y;
        proof {
            assert(1 <= k) by (nonlinear_arith)
                requires
                    1 <= x && 1 <= y && k == x * y,
            ;
            lemma_ceil_div_at_least_one(k as int, new_y as int);
        }
        if new_x <= x {
            (x - new_x) as u64
        } else {
            0
        }
    }

    /// Applies a buy: the net settlement amount enters both the real and
    /// the virtual reserve, and the bought tokens leave the token reserve.
    pub fn update_buy_state(&mut self, sol_in: u64, tokens_out: u64)
        requires
            old(self).virtual_sol_reserves + sol_in <= u64::MAX,
            old(self).real_sol_reserves + sol_in <= u64::MAX,
            tokens_out <= old(self).virtual_token_reserves,
        ensures
            final(self).real_sol_reserves == old(self).real_sol_reserves + sol_in,
            final(self).virtual_sol_reserves == old(self).virtual_sol_reserves + sol_in,
            final(self).virtual_token_reserves == old(self).virtual_token_reserves - tokens_out,
            *final(self) == (BondingCurve {
                real_sol_reserves: final(self).real_sol_reserves,
                virtual_sol_reserves: final(self).virtual_sol_reserves,
                virtual_token_reserves: final(self).virtual_token_reserves,
                ..*old(self)
            }),
    {
        self.real_sol_reserves = self.real_sol_reserves + sol_in;
        self.virtual_sol_reserves = self.virtual_sol_reserves + sol_in;
        self.virtual_token_reserves = self.virtual_token_reserves - tokens_out;
    }

    /// Applies a sell: the gross settlement payout leaves both the real and
    /// the virtual reserve, and the sold tokens rejoin the token reserve.
    pub fn update_sell_state(&mut self, tokens_in: u64, sol_out: u64)
        requires
            sol_out <= old(self).real_sol_reserves,
            sol_out <= old(self).virtual_sol_reserves,
            old(self).virtual_token_reserves + tokens_in <= u64::MAX,
        ensures
            final(self).real_sol_reserves == old(self).real_sol_reserves - sol_out,
            final(self).virtual_sol_reserves == old(self).virtual_sol_reserves - sol_out,
            final(self).virtual_token_reserves == old(self).virtual_token_reserves + tokens_in,
            *final(self) == (BondingCurve {
                real_sol_reserves: final(self).real_sol_reserves,
                virtual_sol_reserves: final(self).virtual_sol_reserves,
                virtual_token_reserves: final(self).virtual_token_reserves,
                ..*old(self)
            }),
    {
        self.real_sol_reserves = self.real_sol_reserves - sol_out;
        self.virtual_sol_reserves = self.virtual_sol_reserves - sol_out;
        self.virtual_token_reserves = self.virtual_token_reserves + tokens_in;
    }
}

/// A rounded-up quotient `ceil(k / d) = (k + d - 1) / d` is at least one
/// whenever the dividend is positive, and multiplying it back never falls
/// below `k` nor overshoots it by the divisor or more.
pub proof fn lemma_ceil_div_at_least_one(k: int, d: int)
    requires
        1 <= k,
        1 <= d,
    ensures
        1 <= (k + d - 1) / d,
        k <= d * ((k + d - 1) / d) <= k + d - 1,
{
    lemma_fundamental_div_mod(k + d - 1, d);
    lemma_mod_division_less_than_divisor(k + d - 1, d);
    lemma_div_pos_is_pos(k + d - 1, d);
    if (k + d - 1) / d == 0 {
        assert(d * ((k + d - 1) / d) == 0) by (nonlinear_arith)
            requires
                (k + d - 1) / d == 0,
        ;
    }
}

/// No value creation on the buy side: after a buy of any size the product
/// of the virtual reserves never exceeds its value before the trade.
pub proof fn lemma_buy_never_increases_k(c: BondingCurve, sol_in: int)
    requires
        c.wf(),
        0 <= sol_in,
    ensures
        (c.virtual_sol_reserves + sol_in) * (c.virtual_token_reserves - c.spec_buy_output(sol_in))
            <= c.k(),
        0 <= c.spec_buy_output(sol_in) <= c.virtual_token_reserves,
{
    let x = c.virtual_sol_reserves as int;
    let y = c.virtual_token_reserves as int;
    let new_x = x + sol_in;
    let k = c.k();
    lemma_fundamental_div_mod(k, new_x);
    lemma_mod_division_less_than_divisor(k, new_x);
    lemma_mul_inequality(x, new_x, y);
    lemma_div_is_ordered(k, new_x * y, new_x);
    lemma_div_multiples_vanish(y, new_x);
    lemma_div_pos_is_pos(k, new_x);
}

/// Rounding drift on the sell side: a sell with a positive payout moves the
/// product of the virtual reserves up — never down — and by less than one
/// divisor's worth, so the drift always favours the curve and stays bounded.
pub proof fn lemma_sell_k_drift(c: BondingCurve, tokens_in: int)
    requires
        c.wf(),
        0 <= tokens_in,
        1 <= c.virtual_token_reserves,
        0 < c.spec_sell_output(tokens_in),
    ensures
        c.k() <= (c.virtual_sol_reserves - c.spec_sell_output(tokens_in)) * (
        c.virtual_token_reserves + tokens_in),
        (c.virtual_sol_reserves - c.spec_sell_output(tokens_in)) * (c.virtual_token_reserves
            + tokens_in) <= c.k() + (c.virtual_token_reserves + tokens_in) - 1,
{
    let x = c.virtual_sol_reserves as int;
    let y = c.virtual_token_reserves as int;
    let k = c.k();
    let new_y = y + tokens_in;
    let new_x = (k + new_y - 1) / new_y;
    assert(1 <= k) by (nonlinear_arith)
        requires
            1 <= x && 1 <= y && k == x * y,
    ;
    lemma_ceil_div_at_least_one(k, new_y);
    assert(x - c.spec_sell_output(tokens_in) == new_x);
    assert(new_x * new_y == new_y * new_x) by (nonlinear_arith);
}

/// Round-trip asymmetry: buying and then immediately selling the bought
/// tokens never pays out more settlement than went in, provided the
/// settlement reserve after the buy does not exceed the token reserve.
///
/// `c1` is the reserve state the buy leaves behind. Without the reserve
/// hypothesis the claim is false: the floor in the buy formula can hand the
/// buyer one token-unit too many, worth more than one settlement unit once
/// `virtual_sol_reserves` exceeds `virtual_token_reserves`.
pub proof fn lemma_round_trip_no_extraction(c: BondingCurve, c1: BondingCurve, sol_in: int)
    requires
        c.wf(),
        0 <= sol_in,
        c.virtual_sol_reserves + sol_in <= c.virtual_token_reserves,
        c1.virtual_sol_reserves == c.virtual_sol_reserves + sol_in,
        c1.virtual_token_reserves == c.virtual_token_reserves - c.spec_buy_output(sol_in),
    ensures
        c1.spec_sell_output(c.spec_buy_output(sol_in)) <= sol_in,
{
    let x = c.virtual_sol_reserves as int;
    let y = c.virtual_token_reserves as int;
    let k = c.k();
    let x1 = x + sol_in;
    lemma_buy_never_increases_k(c, sol_in);
    let bought = c.spec_buy_output(sol_in);
    let y1 = y - bought;
    assert(y1 == k / x1);
    if y1 == 0 {
        assert(c1.spec_sell_output(bought) == 0);
    } else {
        let k1 = c1.k();
        assert(k1 == x1 * y1);
        lemma_fundamental_div_mod(k, x1);
        lemma_mod_division_less_than_divisor(k, x1);
        assert(k1 >= k - y + 1);
        let new_y = y1 + bought;
        assert(new_y == y);
        let new_x = (k1 + y - 1) / y;
        assert(x * y <= k1 + y - 1);
        lemma_div_is_ordered(x * y, k1 + y - 1, y);
        lemma_div_by_multiple(x, y);
        assert(new_x >= x);
    }
}

} // verus!
