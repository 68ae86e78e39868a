//! Lifecycle state machine: the operations a caller can submit against the
//! protocol, from config initialisation through trading, fee claims, and the
//! one-time migration.
//!
//! Each operation validates, computes, and mutates the passed-in state; it
//! never moves balances itself. A returned fill says what the ledger must
//! move; an error means nothing was changed, so the caller can treat every
//! rejection as atomic.

use crate::curve::{lemma_buy_never_increases_k, lemma_sell_k_drift, BondingCurve};
use crate::errors::PumpError;
use crate::fees::{
    calculate_fees, creator_fee_of, lemma_fee_split_correct, total_fee_of, treasury_fee_of,
};
use crate::state::{DexPool, ProtocolConfig, ProtocolConfigV1};
use crate::{AccountId, MIN_SOL_TRADE_AMOUNT, TOTAL_SUPPLY};
use vstd::prelude::*;

verus! {

/// Bootstrap virtual settlement reserve of a fresh curve (1 SOL).
pub const INITIAL_VIRTUAL_SOL_RESERVES: u64 = 1_000_000_000;

/// Bootstrap virtual token reserve of a fresh curve (100,000 tokens).
pub const INITIAL_VIRTUAL_TOKEN_RESERVES: u64 = 100_000_000_000;

/// Default creation fee charged to a curve's creator (1 SOL).
pub const DEFAULT_CREATION_FEE_SOL: u64 = 1_000_000_000;

/// Default total trade fee, in basis points of the gross amount.
pub const DEFAULT_TOTAL_TRADE_FEE_BPS: u64 = 30;

/// Default creator share, in basis points of the total trade fee.
pub const DEFAULT_CREATOR_FEE_BPS_SHARE: u64 = 10;

/// Default real-reserve threshold that arms migration (50 SOL).
pub const DEFAULT_MIGRATION_THRESHOLD_SOL: u64 = 50_000_000_000;

/// Nominal liquidity amount minted and immediately burned at migration, a
/// bookkeeping artifact of the downstream pool convention.
pub const LP_BOOKKEEPING_AMOUNT: u64 = 1_000_000_000;

/// What remains of a gross trade amount once the total fee is taken.
pub open spec fn trade_net_of_fees(gross: int, config: ProtocolConfig) -> int {
    gross - total_fee_of(gross, config.total_trade_fee_bps as int)
}

/// Ledger movements a successful buy asks for: `sol_to_curve` plus the two
/// fee portions add up to the buyer's gross payment, and `tokens_out`
/// leaves the vault for the buyer.
#[derive(Clone, Copy, Debug, PartialEq, Eq)]
pub struct BuyFill {
    pub tokens_out: u64,
    pub sol_to_curve: u64,
    pub creator_fee: u64,
    pub treasury_fee: u64,
}

/// Ledger movements a successful sell asks for: the seller's tokens enter
/// the vault, `sol_out_net` goes to the seller and `treasury_fee` to the
/// treasury, both out of the gross payout the reserves released.
#[derive(Clone, Copy, Debug, PartialEq, Eq)]
pub struct SellFill {
    pub sol_out_net: u64,
    pub sol_out_gross: u64,
    pub creator_fee: u64,
    pub treasury_fee: u64,
}

/// Ledger movements a successful migration asks for.
#[derive(Clone, Copy, Debug, PartialEq, Eq)]
pub struct MigrationFill {
    pub tokens_to_pool: u64,
    pub lamports_to_pool: u64,
    pub lp_bookkeeping: u64,
}

/// Creates the protocol config with the default rates.
pub fn initialize_config(governance_authority: AccountId, treasury: AccountId, bump: u8) -> (c:
    ProtocolConfig)
    ensures
        c == (ProtocolConfig {
            governance_authority,
            treasury,
            creation_fee_sol: DEFAULT_CREATION_FEE_SOL,
            total_trade_fee_bps: DEFAULT_TOTAL_TRADE_FEE_BPS,
            creator_fee_bps_share: DEFAULT_CREATOR_FEE_BPS_SHARE,
            migration_threshold_sol: DEFAULT_MIGRATION_THRESHOLD_SOL,
            is_paused: false,
            bump,
        }),
        c.wf(),
{
    ProtocolConfig {
        governance_authority,
        treasury,
        creation_fee_sol: DEFAULT_CREATION_FEE_SOL,
        total_trade_fee_bps: DEFAULT_TOTAL_TRADE_FEE_BPS,
        creator_fee_bps_share: DEFAULT_CREATOR_FEE_BPS_SHARE,
        migration_threshold_sol: DEFAULT_MIGRATION_THRESHOLD_SOL,
        is_paused: false,
        bump,
    }
}

/// Replaces every config field with the caller-supplied payload; only the
/// governance authority may do so, and the stored derivation seed is kept.
pub fn update_config(config: &mut ProtocolConfig, caller: AccountId, new_config: ProtocolConfigV1)
    -> (r: Result<(), PumpError>)
    requires
        caller == old(config).governance_authority ==> new_config.wf(),
    ensures
        caller != old(config).governance_authority ==> r == Err::<(), PumpError>(
            PumpError::Unauthorized,
        ) && *final(config) == *old(config),
        caller == old(config).governance_authority ==> {
            &&& r == Ok::<(), PumpError>(())
            &&& *final(config) == (ProtocolConfig {
                governance_authority: new_config.governance_authority,
                treasury: new_config.treasury,
                creation_fee_sol: new_config.creation_fee_sol,
                total_trade_fee_bps: new_config.total_trade_fee_bps,
                creator_fee_bps_share: new_config.creator_fee_bps_share,
                migration_threshold_sol: new_config.migration_threshold_sol,
                is_paused: new_config.is_paused,
                bump: old(config).bump,
            })
            &&& final(config).wf()
        },
{
    if caller != config.governance_authority {
        return Err(PumpError::Unauthorized);
    }
    let bump = config.bump;
    *config = ProtocolConfig::from(new_config);
    config.bump = bump;
    Ok(())
}

/// Ledger movements a creation asks for: the creation fee to the treasury,
/// and the full fixed supply minted into the curve's vault.
#[derive(Clone, Copy, Debug, PartialEq, Eq)]
pub struct CreateFill {
    pub creation_fee_to_treasury: u64,
    pub supply_to_vault: u64,
}

/// Creates a curve in its initial (active) state: bootstrap virtual
/// reserves, zero real reserve, nothing owed, trading open.
pub fn create(
    config: &ProtocolConfig,
    creator: AccountId,
    token_mint: AccountId,
    token_vault: AccountId,
    bump: u8,
) -> (r: (BondingCurve, CreateFill))
    ensures
        r.0 == (BondingCurve {
            creator,
            token_mint,
            token_vault,
            virtual_sol_reserves: INITIAL_VIRTUAL_SOL_RESERVES,
            virtual_token_reserves: INITIAL_VIRTUAL_TOKEN_RESERVES,
            real_sol_reserves: 0,
            is_completed: false,
            dex_pool: 0,
            creator_fees_owed: 0,
            bump,
        }),
        r.0.wf(),
        r.1 == (CreateFill {
            creation_fee_to_treasury: config.creation_fee_sol,
            supply_to_vault: TOTAL_SUPPLY,
        }),
{
    let curve = BondingCurve {
        creator,
        token_mint,
        token_vault,
        virtual_sol_reserves: INITIAL_VIRTUAL_SOL_RESERVES,
        virtual_token_reserves: INITIAL_VIRTUAL_TOKEN_RESERVES,
        real_sol_reserves: 0,
        is_completed: false,
        dex_pool: 0,
        creator_fees_owed: 0,
        bump,
    };
    let fill = CreateFill {
        creation_fee_to_treasury: config.creation_fee_sol,
        supply_to_vault: TOTAL_SUPPLY,
    };
    (curve, fill)
}

/// The reason a buy is rejected, if any, checked in the order the checks
/// run; `None` means the buy applies.
pub open spec fn buy_reject(
    config: ProtocolConfig,
    curve: BondingCurve,
    supplied_vault: AccountId,
    total_sol_in: u64,
    min_tokens_out: u64,
    deadline: i64,
    now: i64,
) -> Option<PumpError> {
    if curve.is_completed {
        Some(PumpError::CurveCompleted)
    } else if curve.token_vault != supplied_vault {
        Some(PumpError::InvalidMetadataLength)
    } else if now > deadline {
        Some(PumpError::DeadlineExceeded)
    } else if config.is_paused {
        Some(PumpError::ProtocolPaused)
    } else if total_sol_in < MIN_SOL_TRADE_AMOUNT {
        Some(PumpError::TradeAmountTooSmall)
    } else if curve.spec_buy_output(trade_net_of_fees(total_sol_in as int, config))
        < min_tokens_out {
        Some(PumpError::SlippageLimitExceeded)
    } else {
        None
    }
}

/// Buys tokens from the curve for `total_sol_in` gross settlement units.
///
/// The fee split is computed on the gross amount, the curve prices the net
/// remainder, the creator's portion accrues to the fee ledger, and the
/// reserves move by exactly the net amount. The product of the virtual
/// reserves never increases.
pub fn buy(
    config: &ProtocolConfig,
    curve: &mut BondingCurve,
    supplied_vault: AccountId,
    total_sol_in: u64,
    min_tokens_out: u64,
    deadline: i64,
    now: i64,
) -> (r: Result<BuyFill, PumpError>)
    requires
        config.wf(),
        old(curve).wf(),
        buy_reject(
            *config,
            *old(curve),
            supplied_vault,
            total_sol_in,
            min_tokens_out,
            deadline,
            now,
        ) is None ==> {
            &&& old(curve).creator_fees_owed + creator_fee_of(
                total_sol_in as int,
                config.total_trade_fee_bps as int,
                config.creator_fee_bps_share as int,
            ) <= u64::MAX
            &&& old(curve).virtual_sol_reserves + trade_net_of_fees(total_sol_in as int, *config)
                <= u64::MAX
        },
    ensures
        (match buy_reject(
            *config,
            *old(curve),
            supplied_vault,
            total_sol_in,
            min_tokens_out,
            deadline,
            now,
        ) {
            Some(e) => r == Err::<BuyFill, PumpError>(e) && *final(curve) == *old(curve),
            None => {
                let cf = creator_fee_of(
                    total_sol_in as int,
                    config.total_trade_fee_bps as int,
                    config.creator_fee_bps_share as int,
                );
                let tf = treasury_fee_of(
                    total_sol_in as int,
                    config.total_trade_fee_bps as int,
                    config.creator_fee_bps_share as int,
                );
                let net = trade_net_of_fees(total_sol_in as int, *config);
                let out = old(curve).spec_buy_output(net);
                &&& r == Ok::<BuyFill, PumpError>(BuyFill {
                    tokens_out: out as u64,
                    sol_to_curve: net as u64,
                    creator_fee: cf as u64,
                    treasury_fee: tf as u64,
                })
                &&& final(curve).virtual_sol_reserves == old(curve).virtual_sol_reserves + net
                &&& final(curve).real_sol_reserves == old(curve).real_sol_reserves + net
                &&& final(curve).virtual_token_reserves == old(curve).virtual_token_reserves - out
                &&& final(curve).creator_fees_owed == old(curve).creator_fees_owed + cf
                &&& *final(curve) == (BondingCurve {
                    virtual_sol_reserves: final(curve).virtual_sol_reserves,
                    real_sol_reserves: final(curve).real_sol_reserves,
                    virtual_token_reserves: final(curve).virtual_token_reserves,
                    creator_fees_owed: final(curve).creator_fees_owed,
                    ..*old(curve)
                })
                &&& final(curve).virtual_sol_reserves - final(curve).real_sol_reserves == old(
                    curve,
                ).virtual_sol_reserves - old(curve).real_sol_reserves
                &&& final(curve).wf()
                &&& final(curve).k() <= old(curve).k()
            },
        }),
{
    if curve.is_completed {
        return Err(PumpError::CurveCompleted);
    }
    if curve.token_vault != supplied_vault {
        return Err(PumpError::InvalidMetadataLength);
    }
    if now > deadline {
        return Err(PumpError::DeadlineExceeded);
    }
    if config.is_paused {
        return Err(PumpError::ProtocolPaused);
    }
    if total_sol_in < MIN_SOL_TRADE_AMOUNT {
        return Err(PumpError::TradeAmountTooSmall);
    }
    proof {
        lemma_fee_split_correct(
            total_sol_in as int,
            config.total_trade_fee_bps as int,
            config.creator_fee_bps_share as int,
        );
        let tf = total_fee_of(total_sol_in as int, config.total_trade_fee_bps as int);
        assert(tf * config.creator_fee_bps_share <= u128::MAX) by (nonlinear_arith)
            requires
                0 <= tf <= u64::MAX && config.creator_fee_bps_share <= 10000,
        ;
    }
    let (creator_fee_wide, treasury_fee_wide) = calculate_fees(
        total_sol_in as u128,
        config.total_trade_fee_bps,
        config.creator_fee_bps_share,
    );
    let creator_fee = creator_fee_wide as u64;
    let treasury_fee = treasury_fee_wide as u64;
    let amount_for_curve = total_sol_in - treasury_fee - creator_fee;
    let calculated_tokens_out = curve.get_buy_output(amount_for_curve);
    if calculated_tokens_out < min_tokens_out {
        return Err(PumpError::SlippageLimitExceeded);
    }
    proof {
        lemma_buy_never_increases_k(*curve, amount_for_curve as int);
    }
    curve.creator_fees_owed = curve.creator_fees_owed + creator_fee;
    curve.update_buy_state(amount_for_curve, calculated_tokens_out);
    Ok(
        BuyFill {
            tokens_out: calculated_tokens_out,
            sol_to_curve: amount_for_curve,
            creator_fee,
            treasury_fee,
        },
    )
}

/// The reason a sell is rejected, if any, checked in the order the checks
/// run; `None` means the sell applies.
pub open spec fn sell_reject(
    config: ProtocolConfig,
    curve: BondingCurve,
    token_amount: u64,
    min_sol_out: u64,
    deadline: i64,
    now: i64,
) -> Option<PumpError> {
    if now > deadline {
        Some(PumpError::DeadlineExceeded)
    } else if config.is_paused {
        Some(PumpError::ProtocolPaused)
    } else if curve.is_completed {
        Some(PumpError::CurveCompleted)
    } else {
        let gross = curve.spec_sell_output(token_amount as int);
        if token_amount == 0 || gross < MIN_SOL_TRADE_AMOUNT {
            Some(PumpError::TradeAmountTooSmall)
        } else if curve.real_sol_reserves < gross {
            Some(PumpError::InsufficientSolReserves)
        } else if trade_net_of_fees(gross, config) < min_sol_out {
            Some(PumpError::SlippageLimitExceeded)
        } else {
            None
        }
    }
}

/// Sells `token_amount` tokens back to the curve.
///
/// The curve releases the gross constant-product payout from both reserves;
/// the fee split is computed on that gross amount, the creator's portion
/// accrues, and the seller is owed the net remainder. The product of the
/// virtual reserves never decreases here — the ceiling rounding drifts it
/// upward, in the curve's favour, by less than one divisor's worth.
pub fn sell(
    config: &ProtocolConfig,
    curve: &mut BondingCurve,
    token_amount: u64,
    min_sol_out: u64,
    deadline: i64,
    now: i64,
) -> (r: Result<SellFill, PumpError>)
    requires
        config.wf(),
        old(curve).wf(),
        sell_reject(*config, *old(curve), token_amount, min_sol_out, deadline, now) is None ==> {
            &&& old(curve).creator_fees_owed + creator_fee_of(
                old(curve).spec_sell_output(token_amount as int),
                config.total_trade_fee_bps as int,
                config.creator_fee_bps_share as int,
            ) <= u64::MAX
            &&& old(curve).virtual_token_reserves + token_amount <= u64::MAX
        },
    ensures
        (match sell_reject(*config, *old(curve), token_amount, min_sol_out, deadline, now) {
            Some(e) => r == Err::<SellFill, PumpError>(e) && *final(curve) == *old(curve),
            None => {
                let gross = old(curve).spec_sell_output(token_amount as int);
                let cf = creator_fee_of(
                    gross,
                    config.total_trade_fee_bps as int,
                    config.creator_fee_bps_share as int,
                );
                let tf = treasury_fee_of(
                    gross,
                    config.total_trade_fee_bps as int,
                    config.creator_fee_bps_share as int,
                );
                let net = trade_net_of_fees(gross, *config);
                &&& r == Ok::<SellFill, PumpError>(SellFill {
                    sol_out_net: net as u64,
                    sol_out_gross: gross as u64,
                    creator_fee: cf as u64,
                    treasury_fee: tf as u64,
                })
                &&& final(curve).virtual_sol_reserves == old(curve).virtual_sol_reserves - gross
                &&& final(curve).real_sol_reserves == old(curve).real_sol_reserves - gross
                &&& final(curve).virtual_token_reserves == old(curve).virtual_token_reserves
                    + token_amount
                &&& final(curve).creator_fees_owed == old(curve).creator_fees_owed + cf
                &&& *final(curve) == (BondingCurve {
                    virtual_sol_reserves: final(curve).virtual_sol_reserves,
                    real_sol_reserves: final(curve).real_sol_reserves,
                    virtual_token_reserves: final(curve).virtual_token_reserves,
                    creator_fees_owed: final(curve).creator_fees_owed,
                    ..*old(curve)
                })
                &&& final(curve).virtual_sol_reserves - final(curve).real_sol_reserves == old(
                    curve,
                ).virtual_sol_reserves - old(curve).real_sol_reserves
                &&& final(curve).wf()
                &&& old(curve).k() <= final(curve).k()
                &&& final(curve).k() <= old(curve).k() + (old(curve).virtual_token_reserves
                    + token_amount) - 1
            },
        }),
{
    if now > deadline {
        return Err(PumpError::DeadlineExceeded);
    }
    if config.is_paused {
        return Err(PumpError::ProtocolPaused);
    }
    if curve.is_completed {
        return Err(PumpError::CurveCompleted);
    }
    let sol_amount_out_gross = curve.get_sell_output(token_amount);
    if token_amount == 0 || sol_amount_out_gross < MIN_SOL_TRADE_AMOUNT {
        return Err(PumpError::TradeAmountTooSmall);
    }
    if curve.real_sol_reserves < sol_amount_out_gross {
        return Err(PumpError::InsufficientSolReserves);
    }
    proof {
        lemma_fee_split_correct(
            sol_amount_out_gross as int,
            config.total_trade_fee_bps as int,
            config.creator_fee_bps_share as int,
        );
        let tf = total_fee_of(sol_amount_out_gross as int, config.total_trade_fee_bps as int);
        assert(tf * config.creator_fee_bps_share <= u128::MAX) by (nonlinear_arith)
            requires
                0 <= tf <= u64::MAX && config.creator_fee_bps_share <= 10000,
        ;
    }
    let (creator_fee_wide, treasury_fee_wide) = calculate_fees(
        sol_amount_out_gross as u128,
        config.total_trade_fee_bps,
        config.creator_fee_bps_share,
    );
    let creator_fee = creator_fee_wide as u64;
    let treasury_fee = treasury_fee_wide as u64;
    let calculated_sol_out_net = sol_amount_out_gross - creator_fee - treasury_fee;
    if calculated_sol_out_net < min_sol_out {
        return Err(PumpError::SlippageLimitExceeded);
    }
    proof {
        lemma_sell_k_drift(*curve, token_amount as int);
    }
    curve.creator_fees_owed = curve.creator_fees_owed + creator_fee;
    curve.update_sell_state(token_amount, sol_amount_out_gross);
    Ok(
        SellFill {
            sol_out_net: calculated_sol_out_net,
            sol_out_gross: sol_amount_out_gross,
            creator_fee,
            treasury_fee,
        },
    )
}

/// Settlement available to pay creator fees once rent and the real reserve
/// are set aside, clamped at zero.
pub open spec fn claim_available(curve_lamports: int, min_balance: int, real_reserve: int) -> int {
    let after_rent = if curve_lamports >= min_balance {
        curve_lamports - min_balance
    } else {
        0
    };
    if after_rent >= real_reserve {
        after_rent - real_reserve
    } else {
        0
    }
}

/// The reason a claim is rejected, if any; `None` means the claim applies.
pub open spec fn claim_reject(
    curve: BondingCurve,
    caller: AccountId,
    curve_lamports: u64,
    min_balance: u64,
) -> Option<PumpError> {
    if caller != curve.creator {
        Some(PumpError::Unauthorized)
    } else if curve.creator_fees_owed == 0 {
        Some(PumpError::NoFeesToClaim)
    } else if claim_available(
        curve_lamports as int,
        min_balance as int,
        curve.real_sol_reserves as int,
    ) < curve.creator_fees_owed {
        Some(PumpError::InsufficientFeeReserves)
    } else {
        None
    }
}

/// Pays out the whole accrued creator-fee balance, in any lifecycle state,
/// to the curve's recorded creator — provided the curve account holds
/// enough settlement beyond its rent floor and its real reserve.
///
/// Returns the claimed amount; the fee ledger resets to zero by exactly
/// that amount and the reserves are untouched.
pub fn claim_creator_fees(
    curve: &mut BondingCurve,
    caller: AccountId,
    curve_lamports: u64,
    min_balance: u64,
) -> (r: Result<u64, PumpError>)
    ensures
        (match claim_reject(*old(curve), caller, curve_lamports, min_balance) {
            Some(e) => r == Err::<u64, PumpError>(e) && *final(curve) == *old(curve),
            None => {
                &&& r == Ok::<u64, PumpError>(old(curve).creator_fees_owed)
                &&& *final(curve) == (BondingCurve { creator_fees_owed: 0, ..*old(curve) })
            },
        }),
        old(curve).wf() ==> final(curve).wf(),
{
    if caller != curve.creator {
        return Err(PumpError::Unauthorized);
    }
    let fees_to_claim = curve.creator_fees_owed;
    if fees_to_claim == 0 {
        return Err(PumpError::NoFeesToClaim);
    }
    let after_rent = if curve_lamports >= min_balance {
        curve_lamports - min_balance
    } else {
        0
    };
    let available_sol_for_fees = if after_rent >= curve.real_sol_reserves {
        after_rent - curve.real_sol_reserves
    } else {
        0
    };
    if available_sol_for_fees < fees_to_claim {
        return Err(PumpError::InsufficientFeeReserves);
    }
    curve.creator_fees_owed = 0;
    Ok(fees_to_claim)
}

/// The reason a migration is rejected, if any; `None` means it applies.
pub open spec fn migrate_reject(
    config: ProtocolConfig,
    curve: BondingCurve,
    caller: AccountId,
) -> Option<PumpError> {
    if caller != curve.creator {
        Some(PumpError::Unauthorized)
    } else if curve.is_completed {
        Some(PumpError::AlreadyMigrated)
    } else if curve.real_sol_reserves < config.migration_threshold_sol {
        Some(PumpError::MigrationThresholdNotMet)
    } else {
        None
    }
}

/// Completes the curve and snapshots its liquidity into the pool record.
///
/// Valid exactly once: the completed flag is checked at entry and set here,
/// permanently, so a second call is rejected. The pool takes the real
/// settlement reserve and the vault's full token balance; the fill also
/// forwards every lamport above the curve's rent floor.
pub fn complete_and_migrate(
    config: &ProtocolConfig,
    curve: &mut BondingCurve,
    pool: &mut DexPool,
    caller: AccountId,
    pool_id: AccountId,
    dex_token_vault: AccountId,
    dex_sol_vault: AccountId,
    vault_token_balance: u64,
    curve_lamports: u64,
    min_rent: u64,
) -> (r: Result<MigrationFill, PumpError>)
    ensures
        (match migrate_reject(*config, *old(curve), caller) {
            Some(e) => r == Err::<MigrationFill, PumpError>(e) && *final(curve) == *old(curve)
                && *final(pool) == *old(pool),
            None => {
                &&& r == Ok::<MigrationFill, PumpError>(MigrationFill {
                    tokens_to_pool: vault_token_balance,
                    lamports_to_pool: (if curve_lamports >= min_rent {
                        (curve_lamports - min_rent) as u64
                    } else {
                        0
                    }),
                    lp_bookkeeping: LP_BOOKKEEPING_AMOUNT,
                })
                &&& *final(curve) == (BondingCurve {
                    is_completed: true,
                    dex_pool: pool_id,
                    ..*old(curve)
                })
                &&& *final(pool) == (DexPool {
                    token_mint: old(curve).token_mint,
                    token_vault: dex_token_vault,
                    sol_vault: dex_sol_vault,
                    sol_reserves: old(curve).real_sol_reserves,
                    token_reserves: vault_token_balance,
                    bump: old(pool).bump,
                })
            },
        }),
        old(curve).wf() ==> final(curve).wf(),
{
    if caller != curve.creator {
        return Err(PumpError::Unauthorized);
    }
    if curve.is_completed {
        return Err(PumpError::AlreadyMigrated);
    }
    if curve.real_sol_reserves < config.migration_threshold_sol {
        return Err(PumpError::MigrationThresholdNotMet);
    }
    pool.token_mint = curve.token_mint;
    pool.sol_reserves = curve.real_sol_reserves;
    pool.token_reserves = vault_token_balance;
    pool.token_vault = dex_token_vault;
    pool.sol_vault = dex_sol_vault;
    curve.is_completed = true;
    curve.dex_pool = pool_id;
    let transferable_lamports = if curve_lamports >= min_rent {
        curve_lamports - min_rent
    } else {
        0
    };
    Ok(
        MigrationFill {
            tokens_to_pool: vault_token_balance,
            lamports_to_pool: transferable_lamports,
            lp_bookkeeping: LP_BOOKKEEPING_AMOUNT,
        },
    )
}

/// One-time migration: once a curve is completed, any further migration
/// attempt is rejected — as already-migrated for the curve's own creator,
/// and at the authority check for anyone else.
pub proof fn lemma_migrate_is_one_time(
    config: ProtocolConfig,
    curve: BondingCurve,
    caller: AccountId,
)
    requires
        curve.is_completed,
    ensures
        migrate_reject(config, curve, caller) is Some,
        caller == curve.creator ==> migrate_reject(config, curve, caller) == Some(
            PumpError::AlreadyMigrated,
        ),
{
}

/// Prepares the empty pool record the migration will later fill; only the
/// address-derivation seed is recorded at this point.
pub fn initialize_dex_pool(bump: u8) -> (p: DexPool)
    ensures
        p == (DexPool {
            token_mint: 0,
            token_vault: 0,
            sol_vault: 0,
            sol_reserves: 0,
            token_reserves: 0,
            bump,
        }),
{
    DexPool { token_mint: 0, token_vault: 0, sol_vault: 0, sol_reserves: 0, token_reserves: 0, bump }
}

} // verus!
