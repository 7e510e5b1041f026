use vstd::prelude::*;

use crate::errors::VaultError;
use crate::math::{
    clamp_i128, fits_i128, mul_div_ceil, mul_div_floor, saturating_add_i128, saturating_sub_i128,
    trunc_div, BPS,
};
use crate::storage::{
    stored_address, stored_config, stored_flag, InstanceStorage, Key, StorageValue,
};
use crate::types::{AccountingSnapshot, Address, LpConfig, SettlementResult, SettlementStatus};

verus! {

/// Virtual assets added to the NAV when pricing shares.
pub const VIRTUAL_ASSETS: i128 = 1;

/// Virtual shares added to the supply when pricing shares.
pub const VIRTUAL_SHARES: i128 = 1_000_000;

/// Longest instance-storage lifetime extension, in seconds; an LP request
/// delay may not exceed it.
pub const SHARED_BUMP_SECONDS: u64 = 2_592_000;

/// Governance roles held in the configuration manager.
#[derive(Clone, Copy, Debug, PartialEq, Eq, Structural)]
pub enum Role {
    Admin,
    Pauser,
    Upgrader,
}

/// Steps of a timelocked code upgrade.
#[derive(Clone, Copy, Debug, PartialEq, Eq, Structural)]
pub enum UpgradeStep {
    Propose,
    Execute,
    Cancel,
}

/// What the first half of a settlement decided before the accounting
/// snapshot is taken.
#[derive(Clone, Copy, Debug, PartialEq, Eq, Structural)]
pub enum Admission {
    /// Answer at once with this result; no snapshot is taken.
    Refused(SettlementResult),
    /// Take the snapshot and settle.
    Proceed,
}

/// The vault contract's state: its instance storage.
#[derive(Clone, Copy, Debug)]
pub struct VaultContract {
    pub storage: InstanceStorage,
}

pub open spec fn failed() -> SettlementResult {
    SettlementResult { status: SettlementStatus::Failed, amount: 0 }
}

pub open spec fn settled(amount: int) -> SettlementResult {
    SettlementResult { status: SettlementStatus::Settled, amount: amount as i128 }
}

/// An LP configuration the vault accepts.
pub open spec fn config_valid(c: LpConfig) -> bool {
    &&& c.max_withdraw_utilization_bps <= BPS
    &&& c.min_deposit_nav_factor_bps <= BPS
    &&& c.lp_request_delay != 0
    &&& c.lp_request_delay <= SHARED_BUMP_SECONDS
}

/// The snapshot forbids LP settlement: cash is short or a side is blocked.
pub open spec fn blocked(s: AccountingSnapshot) -> bool {
    s.cash_shortfall > 0 || s.lp_blocked_side_count > 0
}

/// The vault is empty in every respect: the first deposit may price freely.
pub open spec fn clean_first_deposit(s: AccountingSnapshot, supply: int) -> bool {
    &&& s.physical_cash == 0
    &&& s.non_lp_claims == 0
    &&& s.total_risk_units == 0
    &&& s.open_position_count == 0
    &&& supply == 0
}

/// The NAV-to-equity factor cannot be computed: `vault_nav * BPS` leaves `i128`.
pub open spec fn nav_factor_overflows(s: AccountingSnapshot) -> bool {
    s.cash_lp_equity > 0 && s.vault_nav > 0 && !fits_i128(s.vault_nav * BPS)
}

/// A later deposit is accepted when the NAV is at least the configured
/// fraction of the cash LP equity.
pub open spec fn later_deposit_ok(c: LpConfig, s: AccountingSnapshot) -> bool {
    &&& s.cash_lp_equity > 0
    &&& s.vault_nav > 0
    &&& (s.vault_nav * BPS) / (s.cash_lp_equity as int) >= c.min_deposit_nav_factor_bps
}

/// With the deposit added, cash LP equity covers the required risk backing.
pub open spec fn restores_capacity(s: AccountingSnapshot, assets: int) -> bool {
    clamp_i128(s.cash_lp_equity + assets) >= s.required_risk_backing
}

/// The deposit passes every gate before it is priced.
pub open spec fn deposit_admitted(c: LpConfig, s: AccountingSnapshot, supply: int, assets: int) -> bool {
    &&& !blocked(s)
    &&& restores_capacity(s, assets)
    &&& (clean_first_deposit(s, supply) || later_deposit_ok(c, s))
}

/// The deposit can be priced without an arithmetic failure.
pub open spec fn deposit_priceable(s: AccountingSnapshot, supply: int, assets: int) -> bool {
    &&& s.vault_nav + VIRTUAL_ASSETS > 0
    &&& supply + VIRTUAL_SHARES >= 0
    &&& fits_i128(assets * (supply + VIRTUAL_SHARES))
}

/// Shares a deposit of `assets` buys: `floor(assets * (supply + V_s) / (nav + V_a))`.
pub open spec fn deposit_shares(s: AccountingSnapshot, supply: int, assets: int) -> int {
    (assets * (supply + VIRTUAL_SHARES)) / (s.vault_nav + VIRTUAL_ASSETS)
}

/// The answer to a queued deposit of `assets` once the snapshot is taken.
pub open spec fn deposit_outcome(c: LpConfig, s: AccountingSnapshot, supply: int, assets: int) -> Result<SettlementResult, VaultError> {
    if nav_factor_overflows(s) {
        Err(VaultError::ArithmeticError)
    } else if !deposit_admitted(c, s, supply, assets) {
        Ok(failed())
    } else if !deposit_priceable(s, supply, assets) {
        Err(VaultError::ArithmeticError)
    } else if deposit_shares(s, supply, assets) <= 0 {
        Ok(failed())
    } else {
        Ok(settled(deposit_shares(s, supply, assets)))
    }
}

/// Burning the whole supply with nothing open: the exiting LP takes all cash equity.
pub open spec fn full_exit(s: AccountingSnapshot, supply: int, shares: int) -> bool {
    &&& shares == supply
    &&& s.open_position_count == 0
    &&& s.total_risk_units == 0
    &&& s.non_lp_claims == 0
}

/// The withdrawal can be priced without an arithmetic failure.
pub open spec fn withdrawal_priceable(s: AccountingSnapshot, supply: int, shares: int) -> bool {
    &&& s.vault_nav + VIRTUAL_ASSETS >= 0
    &&& supply + VIRTUAL_SHARES > 0
    &&& fits_i128(shares * (s.vault_nav + VIRTUAL_ASSETS))
}

/// Assets paid for `shares`: all cash equity on a full exit, else
/// `floor(shares * (nav + V_a) / (supply + V_s))`.
pub open spec fn withdrawal_assets(s: AccountingSnapshot, supply: int, shares: int) -> int {
    if full_exit(s, supply, shares) {
        s.cash_lp_equity as int
    } else {
        (shares * (s.vault_nav + VIRTUAL_ASSETS)) / (supply + VIRTUAL_SHARES)
    }
}

/// Cash LP equity left after paying `assets`.
pub open spec fn post_equity(s: AccountingSnapshot, assets: int) -> int {
    clamp_i128(s.cash_lp_equity - assets)
}

/// The post-withdrawal utilization can be computed without an arithmetic failure.
pub open spec fn utilization_computable(s: AccountingSnapshot, assets: int) -> bool {
    let pe = post_equity(s, assets);
    s.total_risk_units == 0 || pe <= 0 || {
        &&& fits_i128(s.total_risk_units * BPS)
        &&& fits_i128(s.total_risk_units * BPS + pe - 1)
        &&& fits_i128(trunc_div(s.total_risk_units * BPS + pe - 1, pe))
    }
}

/// Utilization, in basis points, after paying `assets`: `0` with no risk,
/// over 100% when no equity is left, else `ceil(risk * BPS / equity)`.
pub open spec fn post_utilization(s: AccountingSnapshot, assets: int) -> int {
    let pe = post_equity(s, assets);
    if s.total_risk_units == 0 {
        0
    } else if pe <= 0 {
        BPS + 1
    } else {
        trunc_div(s.total_risk_units * BPS + pe - 1, pe)
    }
}

/// Burning the whole supply while positions, risk or non-LP claims remain.
pub open spec fn unsafe_empty(s: AccountingSnapshot, supply: int, shares: int) -> bool {
    shares == supply && (s.open_position_count > 0 || s.total_risk_units > 0 || s.non_lp_claims > 0)
}

/// The priced withdrawal is refused.
pub open spec fn withdrawal_refused(c: LpConfig, s: AccountingSnapshot, supply: int, shares: int) -> bool {
    let assets = withdrawal_assets(s, supply, shares);
    ||| blocked(s)
    ||| assets > s.free_lp_capital
    ||| post_utilization(s, assets) > c.max_withdraw_utilization_bps
    ||| unsafe_empty(s, supply, shares)
}

/// The answer to a queued withdrawal of `shares` once the snapshot is taken.
pub open spec fn withdrawal_outcome(c: LpConfig, s: AccountingSnapshot, supply: int, shares: int) -> Result<SettlementResult, VaultError> {
    if !withdrawal_priceable(s, supply, shares) {
        Err(VaultError::ArithmeticError)
    } else if !utilization_computable(s, withdrawal_assets(s, supply, shares)) {
        Err(VaultError::ArithmeticError)
    } else if withdrawal_refused(c, s, supply, shares) {
        Ok(failed())
    } else {
        Ok(settled(withdrawal_assets(s, supply, shares)))
    }
}

/// Checks an LP configuration; `InvalidConfig` unless every bound holds.
pub fn validate_config(config: &LpConfig) -> (r: Result<(), VaultError>)
    ensures
        r is Ok <==> config_valid(*config),
        r matches Err(e) ==> e == VaultError::InvalidConfig,
{
    if config.max_withdraw_utilization_bps > 10_000u32 || config.min_deposit_nav_factor_bps > 10_000u32
        || config.lp_request_delay == 0 || config.lp_request_delay > SHARED_BUMP_SECONDS {
        Err(VaultError::InvalidConfig)
    } else {
        Ok(())
    }
}

/// Whether the snapshot forbids LP settlement.
pub fn settlement_blocked(s: &AccountingSnapshot) -> (r: bool)
    ensures
        r == blocked(*s),
{
    s.cash_shortfall > 0 || s.lp_blocked_side_count > 0
}

/// The role each step of a timelocked upgrade requires of its caller.
pub fn upgrade_role(step: UpgradeStep) -> (r: Role)
    ensures
        r == (match step {
            UpgradeStep::Propose => Role::Upgrader,
            UpgradeStep::Execute => Role::Upgrader,
            UpgradeStep::Cancel => Role::Pauser,
        }),
{
    match step {
        UpgradeStep::Propose => Role::Upgrader,
        UpgradeStep::Execute => Role::Upgrader,
        UpgradeStep::Cancel => Role::Pauser,
    }
}

impl VaultContract {
    /// The request router is set and the caller is it.
    pub open spec fn is_router(&self, caller: Address) -> bool {
        stored_address(self.storage@, Key::RequestRouter) == Some(caller)
    }

    /// The position manager is set and the caller is it.
    pub open spec fn is_position_manager(&self, caller: Address) -> bool {
        stored_address(self.storage@, Key::PositionManager) == Some(caller)
    }

    /// Whether the vault is paused; an unset flag reads as not paused.
    pub open spec fn paused(&self) -> bool {
        stored_flag(self.storage@, Key::Paused) == Some(true)
    }

    /// Builds the vault's storage: managers, configuration, not paused,
    /// initialized. `InvalidConfig` when the configuration is refused.
    pub fn __constructor(config_manager: Address, position_manager: Address, lp_config: LpConfig) -> (r: Result<VaultContract, VaultError>)
        ensures
            r is Ok <==> config_valid(lp_config),
            r matches Err(e) ==> e == VaultError::InvalidConfig,
            r matches Ok(v) ==> v.storage@ == Map::<Key, StorageValue>::empty()
                .insert(Key::ConfigManager, StorageValue::Account(config_manager))
                .insert(Key::PositionManager, StorageValue::Account(position_manager))
                .insert(Key::LpConfig, StorageValue::Config(lp_config))
                .insert(Key::Paused, StorageValue::Flag(false))
                .insert(Key::Initialized, StorageValue::Flag(true)),
    {
        validate_config(&lp_config)?;
        let mut storage = InstanceStorage::new();
        storage.set(&Key::ConfigManager, &StorageValue::Account(config_manager));
        storage.set(&Key::PositionManager, &StorageValue::Account(position_manager));
        storage.set(&Key::LpConfig, &StorageValue::Config(lp_config));
        storage.set(&Key::Paused, &StorageValue::Flag(false));
        storage.set(&Key::Initialized, &StorageValue::Flag(true));
        Ok(VaultContract { storage })
    }

    /// Answers a role check made through the configuration manager:
    /// `Unauthorized` unless the caller holds the role.
    pub fn require_role(&self, caller_has_role: bool) -> (r: Result<(), VaultError>)
        requires
            stored_address(self.storage@, Key::ConfigManager) is Some,
        ensures
            r is Ok <==> caller_has_role,
            r matches Err(e) ==> e == VaultError::Unauthorized,
    {
        if !caller_has_role {
            Err(VaultError::Unauthorized)
        } else {
            Ok(())
        }
    }

    /// `InvalidCaller` unless the caller is the position manager.
    pub fn require_pm(&self, caller: &Address) -> (r: Result<(), VaultError>)
        requires
            stored_address(self.storage@, Key::PositionManager) is Some,
        ensures
            r is Ok <==> self.is_position_manager(*caller),
            r matches Err(e) ==> e == VaultError::InvalidCaller,
    {
        if *caller != self.storage.position_manager() {
            Err(VaultError::InvalidCaller)
        } else {
            Ok(())
        }
    }

    /// `InvalidCaller` unless the caller is the request router.
    pub fn require_router(&self, caller: &Address) -> (r: Result<(), VaultError>)
        requires
            stored_address(self.storage@, Key::RequestRouter) is Some,
        ensures
            r is Ok <==> self.is_router(*caller),
            r matches Err(e) ==> e == VaultError::InvalidCaller,
    {
        if *caller != self.storage.request_router() {
            Err(VaultError::InvalidCaller)
        } else {
            Ok(())
        }
    }

    /// Sets the request router once, for an admin: `Unauthorized` for anyone
    /// else, `AlreadyInitialized` when a router is already set.
    pub fn set_request_router(&mut self, caller_is_admin: bool, request_router: Address) -> (r: Result<(), VaultError>)
        requires
            stored_address(old(self).storage@, Key::ConfigManager) is Some,
        ensures
            r == (if !caller_is_admin {
                Err(VaultError::Unauthorized)
            } else if stored_address(old(self).storage@, Key::RequestRouter) is Some {
                Err(VaultError::AlreadyInitialized)
            } else {
                Ok(())
            }),
            r is Ok ==> final(self).storage@ == old(self).storage@.insert(Key::RequestRouter, StorageValue::Account(request_router)),
            r is Err ==> final(self).storage@ == old(self).storage@,
    {
        self.require_role(caller_is_admin)?;
        if self.storage.get_address(&Key::RequestRouter).is_some() {
            return Err(VaultError::AlreadyInitialized);
        }
        self.storage.set(&Key::RequestRouter, &StorageValue::Account(request_router));
        Ok(())
    }

    /// Admits collateral pulled in by the position manager: `InvalidCaller`
    /// for anyone else, `InvalidAmount` for a non-positive amount.
    pub fn receive_collateral(&self, caller: &Address, amount: i128) -> (r: Result<(), VaultError>)
        requires
            stored_address(self.storage@, Key::PositionManager) is Some,
        ensures
            r == (if !self.is_position_manager(*caller) {
                Err(VaultError::InvalidCaller)
            } else if amount <= 0 {
                Err(VaultError::InvalidAmount)
            } else {
                Ok(())
            }),
    {
        self.require_pm(caller)?;
        if amount <= 0 {
            return Err(VaultError::InvalidAmount);
        }
        Ok(())
    }

    /// Admits a claim payout of `amount` from `physical_cash` that must leave
    /// at least `claims_after` behind: `InvalidCaller` unless the position
    /// manager calls, `InsufficientCash` when the cash does not cover it.
    pub fn transfer_claim(&self, caller: &Address, amount: i128, claims_after: i128, physical_cash: i128) -> (r: Result<(), VaultError>)
        requires
            stored_address(self.storage@, Key::PositionManager) is Some,
        ensures
            r == (if !self.is_position_manager(*caller) {
                Err(VaultError::InvalidCaller)
            } else if amount <= 0 || amount > physical_cash || claims_after < 0
                || physical_cash - amount < claims_after {
                Err(VaultError::InsufficientCash)
            } else {
                Ok(())
            }),
    {
        self.require_pm(caller)?;
        if amount <= 0 || amount > physical_cash || claims_after < 0 || physical_cash - amount < claims_after {
            return Err(VaultError::InsufficientCash);
        }
        Ok(())
    }

    /// Admits a safety-claim payout of `amount` from `physical_cash`:
    /// `InvalidCaller` unless the position manager calls, `InsufficientCash`
    /// for a non-positive amount or one above the cash.
    pub fn transfer_safety_claim(&self, caller: &Address, amount: i128, physical_cash: i128) -> (r: Result<(), VaultError>)
        requires
            stored_address(self.storage@, Key::PositionManager) is Some,
        ensures
            r == (if !self.is_position_manager(*caller) {
                Err(VaultError::InvalidCaller)
            } else if amount <= 0 || amount > physical_cash {
                Err(VaultError::InsufficientCash)
            } else {
                Ok(())
            }),
    {
        self.require_pm(caller)?;
        if amount <= 0 || amount > physical_cash {
            return Err(VaultError::InsufficientCash);
        }
        Ok(())
    }

    /// First half of a deposit settlement: `InvalidCaller` unless the router
    /// calls, `InvalidAmount` for non-positive assets, a failed settlement at
    /// once while paused, else proceed to the snapshot.
    pub fn settle_deposit_admission(&self, caller: &Address, assets: i128) -> (r: Result<Admission, VaultError>)
        requires
            stored_address(self.storage@, Key::RequestRouter) is Some,
        ensures
            r == (if !self.is_router(*caller) {
                Err(VaultError::InvalidCaller)
            } else if assets <= 0 {
                Err(VaultError::InvalidAmount)
            } else if self.paused() {
                Ok(Admission::Refused(failed()))
            } else {
                Ok(Admission::Proceed)
            }),
    {
        self.require_router(caller)?;
        if assets <= 0 {
            return Err(VaultError::InvalidAmount);
        }
        if self.storage.get_flag(&Key::Paused).unwrap_or(false) {
            return Ok(Admission::Refused(SettlementResult { status: SettlementStatus::Failed, amount: 0 }));
        }
        Ok(Admission::Proceed)
    }

    /// Second half of a deposit settlement, on the snapshot `s` and the share
    /// supply: the deposit settles, minting `deposit_shares` shares, exactly
    /// when it is admitted and buys at least one share.
    pub fn settle_deposit(&self, assets: i128, s: &AccountingSnapshot, supply: i128) -> (r: Result<SettlementResult, VaultError>)
        requires
            stored_config(self.storage@) is Some,
            assets > 0,
            !nav_factor_overflows(*s) && deposit_admitted(stored_config(self.storage@).unwrap(), *s, supply as int, assets as int)
                ==> s.vault_nav + VIRTUAL_ASSETS <= i128::MAX && supply + VIRTUAL_SHARES <= i128::MAX,
        ensures
            r == deposit_outcome(stored_config(self.storage@).unwrap(), *s, supply as int, assets as int),
    {
        let clean_first = s.physical_cash == 0 && s.non_lp_claims == 0 && s.total_risk_units == 0
            && s.open_position_count == 0 && supply == 0;
        let config = self.storage.lp_config();
        let later_ok = if s.cash_lp_equity > 0 && s.vault_nav > 0 {
            let factor = mul_div_floor(s.vault_nav, BPS, s.cash_lp_equity)?;
            factor >= config.min_deposit_nav_factor_bps as i128
        } else {
            false
        };
        let restores_capacity = saturating_add_i128(s.cash_lp_equity, assets) >= s.required_risk_backing;
        if settlement_blocked(s) || !restores_capacity || (!clean_first && !later_ok) {
            return Ok(SettlementResult { status: SettlementStatus::Failed, amount: 0 });
        }
        let shares = mul_div_floor(assets, supply + VIRTUAL_SHARES, s.vault_nav + VIRTUAL_ASSETS)?;
        if shares <= 0 {
            return Ok(SettlementResult { status: SettlementStatus::Failed, amount: 0 });
        }
        Ok(SettlementResult { status: SettlementStatus::Settled, amount: shares })
    }

    /// First half of a withdrawal settlement: `InvalidCaller` unless the
    /// router calls, `InvalidAmount` for non-positive shares or more than the
    /// router holds, a failed settlement at once while paused, else proceed.
    pub fn settle_withdrawal_admission(&self, caller: &Address, shares: i128, caller_balance: i128) -> (r: Result<Admission, VaultError>)
        requires
            stored_address(self.storage@, Key::RequestRouter) is Some,
        ensures
            r == (if !self.is_router(*caller) {
                Err(VaultError::InvalidCaller)
            } else if shares <= 0 || caller_balance < shares {
                Err(VaultError::InvalidAmount)
            } else if self.paused() {
                Ok(Admission::Refused(failed()))
            } else {
                Ok(Admission::Proceed)
            }),
    {
        self.require_router(caller)?;
        if shares <= 0 || caller_balance < shares {
            return Err(VaultError::InvalidAmount);
        }
        if self.storage.get_flag(&Key::Paused).unwrap_or(false) {
            return Ok(Admission::Refused(SettlementResult { status: SettlementStatus::Failed, amount: 0 }));
        }
        Ok(Admission::Proceed)
    }

    /// Second half of a withdrawal settlement, on the snapshot `s` and the
    /// share supply: the withdrawal settles, paying `withdrawal_assets`,
    /// exactly when it is not refused.
    pub fn settle_withdrawal(&self, shares: i128, s: &AccountingSnapshot, supply: i128) -> (r: Result<SettlementResult, VaultError>)
        requires
            stored_config(self.storage@) is Some,
            shares > 0,
            s.vault_nav + VIRTUAL_ASSETS <= i128::MAX,
            supply + VIRTUAL_SHARES <= i128::MAX,
        ensures
            r == withdrawal_outcome(stored_config(self.storage@).unwrap(), *s, supply as int, shares as int),
    {
        let mut assets = mul_div_floor(shares, s.vault_nav + VIRTUAL_ASSETS, supply + VIRTUAL_SHARES)?;
        if shares == supply && s.open_position_count == 0 && s.total_risk_units == 0 && s.non_lp_claims == 0 {
            assets = s.cash_lp_equity;
        }
        let post_equity = saturating_sub_i128(s.cash_lp_equity, assets);
        let post_util = if s.total_risk_units == 0 {
            0
        } else if post_equity <= 0 {
            BPS + 1
        } else {
            mul_div_ceil(s.total_risk_units, BPS, post_equity)?
        };
        let config = self.storage.lp_config();
        let empties_supply = shares == supply;
        let unsafe_empty = empties_supply && (s.open_position_count > 0 || s.total_risk_units > 0 || s.non_lp_claims > 0);
        if settlement_blocked(s) || assets > s.free_lp_capital
            || post_util > config.max_withdraw_utilization_bps as i128 || unsafe_empty {
            return Ok(SettlementResult { status: SettlementStatus::Failed, amount: 0 });
        }
        Ok(SettlementResult { status: SettlementStatus::Settled, amount: assets })
    }

    /// Replaces the LP configuration, for an admin: `Unauthorized` for anyone
    /// else, `InvalidConfig` for a refused configuration.
    pub fn set_lp_config(&mut self, caller_is_admin: bool, config: LpConfig) -> (r: Result<(), VaultError>)
        requires
            stored_address(old(self).storage@, Key::ConfigManager) is Some,
        ensures
            r == (if !caller_is_admin {
                Err(VaultError::Unauthorized)
            } else if !config_valid(config) {
                Err(VaultError::InvalidConfig)
            } else {
                Ok(())
            }),
            r is Ok ==> final(self).storage@ == old(self).storage@.insert(Key::LpConfig, StorageValue::Config(config)),
            r is Err ==> final(self).storage@ == old(self).storage@,
    {
        self.require_role(caller_is_admin)?;
        validate_config(&config)?;
        self.storage.set(&Key::LpConfig, &StorageValue::Config(config));
        Ok(())
    }

    /// The LP configuration.
    pub fn get_lp_config(&self) -> (r: LpConfig)
        requires
            stored_config(self.storage@) is Some,
        ensures
            Some(r) == stored_config(self.storage@),
    {
        self.storage.lp_config()
    }

    /// Pauses the vault, for a pauser; `Unauthorized` for anyone else.
    pub fn pause(&mut self, caller_is_pauser: bool) -> (r: Result<(), VaultError>)
        requires
            stored_address(old(self).storage@, Key::ConfigManager) is Some,
        ensures
            r is Ok <==> caller_is_pauser,
            r matches Err(e) ==> e == VaultError::Unauthorized,
            r is Ok ==> final(self).storage@ == old(self).storage@.insert(Key::Paused, StorageValue::Flag(true)),
            r is Err ==> final(self).storage@ == old(self).storage@,
    {
        self.require_role(caller_is_pauser)?;
        self.storage.set(&Key::Paused, &StorageValue::Flag(true));
        Ok(())
    }

    /// Unpauses the vault, for a pauser; `Unauthorized` for anyone else.
    pub fn unpause(&mut self, caller_is_pauser: bool) -> (r: Result<(), VaultError>)
        requires
            stored_address(old(self).storage@, Key::ConfigManager) is Some,
        ensures
            r is Ok <==> caller_is_pauser,
            r matches Err(e) ==> e == VaultError::Unauthorized,
            r is Ok ==> final(self).storage@ == old(self).storage@.insert(Key::Paused, StorageValue::Flag(false)),
            r is Err ==> final(self).storage@ == old(self).storage@,
    {
        self.require_role(caller_is_pauser)?;
        self.storage.set(&Key::Paused, &StorageValue::Flag(false));
        Ok(())
    }

    /// Records the migrated code version, for an upgrader; `Unauthorized` for
    /// anyone else.
    pub fn migrate(&mut self, operator_is_upgrader: bool, version: u32) -> (r: Result<(), VaultError>)
        requires
            stored_address(old(self).storage@, Key::ConfigManager) is Some,
        ensures
            r is Ok <==> operator_is_upgrader,
            r matches Err(e) ==> e == VaultError::Unauthorized,
            r is Ok ==> final(self).storage@ == old(self).storage@.insert(Key::Version, StorageValue::Number(version)),
            r is Err ==> final(self).storage@ == old(self).storage@,
    {
        self.require_role(operator_is_upgrader)?;
        self.storage.save_version(version);
        Ok(())
    }
}

} // verus!
