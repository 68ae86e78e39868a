//! Notifications an operation's caller emits to outside observers. The core
//! only defines their shape; nothing here is read back by any operation.

use crate::AccountId;
use vstd::prelude::*;

verus! {

#[derive(Clone, Copy, Debug, PartialEq, Eq)]
pub struct ConfigInitialized {
    pub governance: AccountId,
    pub treasury: AccountId,
}

#[derive(Clone, Copy, Debug, PartialEq, Eq)]
pub struct ConfigUpdated {
    pub new_governance: AccountId,
    pub new_treasury: AccountId,
}

#[derive(Debug, PartialEq, Eq)]
pub struct TokenCreated {
    pub mint: AccountId,
    pub creator: AccountId,
    pub bonding_curve: AccountId,
    pub name: String,
    pub symbol: String,
}

#[derive(Clone, Copy, Debug, PartialEq, Eq)]
pub struct BuyEvent {
    pub mint: AccountId,
    pub buyer: AccountId,
    pub sol_in: u64,
    pub tokens_out: u64,
}

#[derive(Clone, Copy, Debug, PartialEq, Eq)]
pub struct SellEvent {
    pub mint: AccountId,
    pub seller: AccountId,
    pub tokens_in: u64,
    pub sol_out: u64,
}

#[derive(Clone, Copy, Debug, PartialEq, Eq)]
pub struct CreatorFeeClaimed {
    pub mint: AccountId,
    pub creator: AccountId,
    pub amount: u64,
}

#[derive(Clone, Copy, Debug, PartialEq, Eq)]
pub struct DexMigrated {
    pub mint: AccountId,
    pub dex_pool: AccountId,
    pub sol_reserves: u64,
    pub token_reserves: u64,
}

} // verus!
