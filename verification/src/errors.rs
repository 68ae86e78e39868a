//! The error taxonomy. Every operation rejects atomically: an error means
//! no state was changed.

use vstd::prelude::*;

verus! {

#[derive(Clone, Copy, Debug, PartialEq, Eq)]
pub enum PumpError {
    /// Trade attempted on a curve whose trading is permanently locked.
    CurveCompleted,
    /// The real settlement reserve cannot cover the requested payout.
    InsufficientSolReserves,
    /// The computed output is worse than the caller's bound.
    SlippageLimitExceeded,
    /// A supplied account does not match the one the curve recorded.
    InvalidMetadataLength,
    /// A creator-fee claim with nothing owed.
    NoFeesToClaim,
    /// The governance authority has paused the protocol.
    ProtocolPaused,
    /// The caller-supplied deadline lies in the past.
    DeadlineExceeded,
    /// The gross trade amount is below the trade floor.
    TradeAmountTooSmall,
    /// The balance available beyond rent and reserves cannot pay the claim.
    InsufficientFeeReserves,
    /// Migration was already executed on this curve.
    AlreadyMigrated,
    /// The real reserve has not reached the migration threshold.
    MigrationThresholdNotMet,
    /// The caller is not the recorded creator or governance authority.
    Unauthorized,
}

} // verus!
