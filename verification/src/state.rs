//! Protocol-wide configuration and the migrated-pool record.

use crate::AccountId;
use vstd::prelude::*;

verus! {

/// Global protocol parameters, one instance process-wide, read by every
/// operation and replaced only by the governance authority.
pub struct ProtocolConfig {
    pub governance_authority: AccountId,
    pub treasury: AccountId,
    pub creation_fee_sol: u64,
    pub total_trade_fee_bps: u64,
    pub creator_fee_bps_share: u64,
    pub migration_threshold_sol: u64,
    pub is_paused: bool,
    pub bump: u8,
}

impl ProtocolConfig {
    /// Well-formed rates: the total trade fee is a fraction of the gross
    /// amount, and the creator's share a fraction of that total fee.
    pub open spec fn wf(self) -> bool {
        &&& self.total_trade_fee_bps <= 10000
        &&& self.creator_fee_bps_share <= self.total_trade_fee_bps
    }
}

/// The caller-supplied replacement payload for a config update; it carries
/// everything but the address-derivation seed, which the stored config keeps.
pub struct ProtocolConfigV1 {
    pub governance_authority: AccountId,
    pub treasury: AccountId,
    pub creation_fee_sol: u64,
    pub total_trade_fee_bps: u64,
    pub creator_fee_bps_share: u64,
    pub migration_threshold_sol: u64,
    pub is_paused: bool,
}

impl ProtocolConfigV1 {
    pub open spec fn wf(self) -> bool {
        &&& self.total_trade_fee_bps <= 10000
        &&& self.creator_fee_bps_share <= self.total_trade_fee_bps
    }
}

impl From<ProtocolConfigV1> for ProtocolConfig {
    fn from(v1: ProtocolConfigV1) -> (r: ProtocolConfig) {
        ProtocolConfig {
            governance_authority: v1.governance_authority,
            treasury: v1.treasury,
            creation_fee_sol: v1.creation_fee_sol,
            total_trade_fee_bps: v1.total_trade_fee_bps,
            creator_fee_bps_share: v1.creator_fee_bps_share,
            migration_threshold_sol: v1.migration_threshold_sol,
            is_paused: v1.is_paused,
            bump: 0,
        }
    }
}

impl vstd::std_specs::convert::FromSpecImpl<ProtocolConfigV1> for ProtocolConfig {
    open spec fn obeys_from_spec() -> bool {
        true
    }

    open spec fn from_spec(v1: ProtocolConfigV1) -> ProtocolConfig {
        ProtocolConfig {
            governance_authority: v1.governance_authority,
            treasury: v1.treasury,
            creation_fee_sol: v1.creation_fee_sol,
            total_trade_fee_bps: v1.total_trade_fee_bps,
            creator_fee_bps_share: v1.creator_fee_bps_share,
            migration_threshold_sol: v1.migration_threshold_sol,
            is_paused: v1.is_paused,
            bump: 0,
        }
    }
}

/// The two-sided pool a completed curve migrates into: created empty once,
/// filled exactly once by the migration, immutable afterwards as far as this
/// core is concerned.
pub struct DexPool {
    pub token_mint: AccountId,
    pub token_vault: AccountId,
    pub sol_vault: AccountId,
    pub sol_reserves: u64,
    pub token_reserves: u64,
    pub bump: u8,
}

} // verus!
