use vstd::prelude::*;

verus! {

/// Errors the vault answers a refused call with.
#[derive(Clone, Copy, Debug, PartialEq, Eq, Structural)]
pub enum VaultError {
    Unauthorized,
    AlreadyInitialized,
    NotInitialized,
    InvalidAmount,
    InvalidConfig,
    Paused,
    InsufficientCash,
    InvalidCaller,
    ArithmeticError,
    /// `upgrade` called with no pending proposal.
    UpgradeNoPending,
    /// `upgrade` called before the proposal's timelock eta.
    UpgradeTimelockNotElapsed,
    /// `upgrade` called with a hash that differs from the proposal.
    UpgradeHashMismatch,
    /// A negative amount handed to a share conversion.
    ZeroAmount,
    /// A withdrawal attempted before the owner's lockup expired.
    CooldownNotElapsed,
    /// The synced trader PnL is too old to trust while positions are open.
    StalePnlSync,
    /// A call reserved to the position manager came from another address.
    NotPositionManager,
    /// A payout or withdrawal larger than the free liquidity.
    InsufficientFreeLiquidity,
}

} // verus!
