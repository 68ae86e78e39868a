//! Bonding-curve token-launch engine: constant-product pricing, fee
//! splitting, and the lifecycle state machine from curve creation through
//! trading, fee accrual, and one-time migration into a two-sided pool.
//!
//! The library is the pure core: it decides and computes on plain values.
//! Moving lamports and tokens between accounts is the caller's job; each
//! operation returns the amounts the ledger must move.

pub mod curve;
pub mod errors;
pub mod events;
pub mod fees;
pub mod ops;
pub mod state;

use vstd::prelude::*;

verus! {

/// An account address, reduced to the one thing the core reads of it:
/// its identity.
pub type AccountId = u64;

/// Total fixed token supply minted at creation (1 billion, 6 decimals).
pub const TOTAL_SUPPLY: u64 = 1_000_000_000_000_000;

/// Decimals of the launched mint.
pub const MINT_DECIMALS: u8 = 6;

/// Smallest gross settlement amount a trade may move (0.001 SOL in lamports).
pub const MIN_SOL_TRADE_AMOUNT: u64 = 1_000_000;

} // verus!
