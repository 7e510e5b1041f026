use vstd::prelude::*;

verus! {

/// An account or contract address: a 32-byte key, split into two halves, and
/// whether it names a contract.
#[derive(Clone, Copy, Debug, PartialEq, Eq, Structural)]
pub struct Address {
    pub is_contract: bool,
    pub key_high: u128,
    pub key_low: u128,
}

/// LP request parameters the vault enforces.
#[derive(Clone, Copy, Debug, PartialEq, Eq, Structural)]
pub struct LpConfig {
    /// Highest post-withdrawal utilization, in basis points, a withdrawal may leave.
    pub max_withdraw_utilization_bps: u32,
    /// Lowest NAV-to-cash-equity factor, in basis points, at which later deposits are accepted.
    pub min_deposit_nav_factor_bps: u32,
    /// Seconds an LP request waits before it can be settled.
    pub lp_request_delay: u64,
}

/// The position manager's view of vault accounting at one oracle round.
#[derive(Clone, Copy, Debug, PartialEq, Eq, Structural)]
pub struct AccountingSnapshot {
    pub physical_cash: i128,
    pub non_lp_claims: i128,
    pub cash_lp_equity: i128,
    pub vault_nav: i128,
    pub free_lp_capital: i128,
    pub required_risk_backing: i128,
    pub total_risk_units: i128,
    pub cash_shortfall: i128,
    pub open_position_count: u32,
    pub lp_blocked_side_count: u32,
}

/// Whether a queued LP request settled.
#[derive(Clone, Copy, Debug, PartialEq, Eq, Structural)]
pub enum SettlementStatus {
    Settled,
    Failed,
}

/// The answer to a settlement: its status and the shares minted (deposit) or
/// assets paid (withdrawal); `0` when it failed.
#[derive(Clone, Copy, Debug, PartialEq, Eq, Structural)]
pub struct SettlementResult {
    pub status: SettlementStatus,
    pub amount: i128,
}

/// A queued deposit settled: `assets` entered the vault, `shares` minted to `owner`.
#[derive(Clone, Copy, Debug, PartialEq, Eq, Structural)]
pub struct DepositSettled {
    pub owner: Address,
    pub assets: i128,
    pub shares: i128,
}

/// A queued withdrawal settled: `shares` burned, `assets` paid to `owner`.
#[derive(Clone, Copy, Debug, PartialEq, Eq, Structural)]
pub struct WithdrawalSettled {
    pub owner: Address,
    pub shares: i128,
    pub assets: i128,
}

/// The LP configuration was replaced.
#[derive(Clone, Copy, Debug, PartialEq, Eq, Structural)]
pub struct LpConfigUpdated {
    pub config: LpConfig,
}

/// The vault was paused or unpaused.
#[derive(Clone, Copy, Debug, PartialEq, Eq, Structural)]
pub struct PauseChanged {
    pub paused: bool,
}

/// A user's withdrawal lockup was set to `expires_at`.
#[derive(Clone, Copy, Debug, PartialEq, Eq, Structural)]
pub struct Lockup {
    pub user: Address,
    pub expires_at: u64,
}

} // verus!
