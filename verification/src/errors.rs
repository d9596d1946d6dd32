//! Failure taxonomy of the control-plane.
//!
//! Authorization errors report a caller that does not hold the required
//! role. `NotSSS2Compliant` and `MissingPermanentDelegate` are graceful,
//! expected outcomes of invoking seizure against a token that was not
//! issued with the forced-transfer capability; callers branch on them.
//! `AccountBlacklisted` is the transfer-time veto, and
//! `AlreadyInitialized` reports a second attempt to create the singleton
//! registry.
use vstd::prelude::*;

verus! {

/// Every rejection the control-plane can return. No variant is retried:
/// each is a deterministic function of current state and input, and a
/// rejection leaves all state exactly as it was.
#[derive(Clone, Copy, Debug, PartialEq, Eq, Structural)]
pub enum ProgramError {
    /// Caller does not hold the `master` role.
    UnauthorizedMaster,
    /// Caller does not hold the `minter` role.
    UnauthorizedMinter,
    /// Caller does not hold the `burner` role.
    UnauthorizedBurner,
    /// Caller does not hold the `pauser` role.
    UnauthorizedPauser,
    /// Caller does not hold the `blacklister` role.
    UnauthorizedBlacklister,
    /// Caller does not hold the `seizer` role.
    UnauthorizedSeizer,
    /// A transfer touches a blacklisted holder and is vetoed.
    AccountBlacklisted,
    /// The mint does not carry the forced-transfer capability, so seizure
    /// is impossible for this token variant; a graceful failure.
    NotSSS2Compliant,
    /// The mint carries the capability but no authority is bound to it.
    MissingPermanentDelegate,
    /// The singleton registry was already created.
    AlreadyInitialized,
}

} // verus!
