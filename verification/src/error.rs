//! Rejection reasons.  Every fallible operation of the library reports one of
//! these; a rejected call leaves all records exactly as they were.

use vstd::prelude::*;

verus! {

/// Why a call was rejected.  Each variant corresponds to one distinct
/// validation failure of the sale's state machine.
#[derive(Clone, Copy, Debug, PartialEq, Eq, Structural)]
pub enum Error {
    /// A time range was given with its start after its end.
    InvalidTimeRange,
    /// The caller is not the configured admin.
    NotAdmin,
    /// A configuration change was attempted while the sale is in progress.
    LaunchpadInProgress,
    /// A phase or whitelist mutation was attempted after the sale started.
    LaunchpadStarted,
    /// A deposit was attempted outside the global sale window.
    NotInLaunchpadTime,
    /// No phase window covers the current time.
    NoActivePhase,
    /// The caller is not on the active phase's allow-list.
    NotInPhase,
    /// The purchase would exceed the phase's remaining supply.
    Overbuy,
    /// The requested amount exceeds the phase's per-buyer limit.
    OverLimit,
    /// The caller's cumulative purchase in this phase would exceed its limit.
    MaxBuyPhaseReached,
    /// The attached payment is not exactly one coin of the configured
    /// denomination with the exact price.
    PaymentMismatch,
    /// A phase with this name already exists.
    PhaseExists,
    /// No phase with this name exists.
    PhaseNotFound,
    /// A phase was given zero supply.
    SupplyZero,
    /// A phase was given a zero price per token.
    PriceZero,
    /// A phase list holds two phases with the same name.
    DuplicatePhase,
    /// A phase was given a minted counter above its supply.
    MintedExceedsSupply,
    /// A whitelist holds two entries for the same address.
    DuplicateWhitelist,
    /// Claiming cannot be enabled before the settlement asset is configured.
    TokenDenomNotSet,
    /// Claiming is not currently enabled.
    NotClaimable,
    /// The caller has no purchase record.
    UserNotFound,
    /// The caller's claim was already settled.
    AlreadyClaimed,
    /// The settlement instruction could not be encoded.
    SerializationFailed,
}

} // verus!
