use wintrader_vault::contract::{
    settlement_blocked, upgrade_role, validate_config, Admission, Role,
    UpgradeStep, VaultContract, SHARED_BUMP_SECONDS,
};
use wintrader_vault::errors::VaultError;
use wintrader_vault::logic::{require_initialized, require_not_paused, require_position_manager};
use wintrader_vault::math::{mul_div_ceil, mul_div_floor};
use wintrader_vault::storage::{InstanceStorage, Key, StorageValue};
use wintrader_vault::upgrade::{upgrade_failure_error, UpgradeFailure, UpgradeTimelock, WasmHash};
use wintrader_vault::types::{AccountingSnapshot, Address, LpConfig, SettlementResult, SettlementStatus};

fn addr(n: u128) -> Address {
    Address { is_contract: true, key_high: 3, key_low: n }
}

const CONFIG_MANAGER: u128 = 1;
const POSITION_MANAGER: u128 = 2;
const ROUTER: u128 = 3;

fn config() -> LpConfig {
    LpConfig { max_withdraw_utilization_bps: 8_000, min_deposit_nav_factor_bps: 9_000, lp_request_delay: 60 }
}

fn vault() -> VaultContract {
    let mut v = VaultContract::__constructor(addr(CONFIG_MANAGER), addr(POSITION_MANAGER), config()).unwrap();
    v.set_request_router(true, addr(ROUTER)).unwrap();
    v
}

fn empty_snapshot() -> AccountingSnapshot {
    AccountingSnapshot {
        physical_cash: 0,
        non_lp_claims: 0,
        cash_lp_equity: 0,
        vault_nav: 0,
        free_lp_capital: 0,
        required_risk_backing: 0,
        total_risk_units: 0,
        cash_shortfall: 0,
        open_position_count: 0,
        lp_blocked_side_count: 0,
    }
}

/// A running vault: 1000 of cash equity and NAV, 300 of risk, 600 free.
fn running_snapshot() -> AccountingSnapshot {
    AccountingSnapshot {
        physical_cash: 1_000,
        non_lp_claims: 0,
        cash_lp_equity: 1_000,
        vault_nav: 1_000,
        free_lp_capital: 600,
        required_risk_backing: 400,
        total_risk_units: 300,
        cash_shortfall: 0,
        open_position_count: 2,
        lp_blocked_side_count: 0,
    }
}

fn failed() -> SettlementResult {
    SettlementResult { status: SettlementStatus::Failed, amount: 0 }
}

fn settled(amount: i128) -> SettlementResult {
    SettlementResult { status: SettlementStatus::Settled, amount }
}

#[test]
fn constructor_stores_managers_and_config() {
    let v = VaultContract::__constructor(addr(CONFIG_MANAGER), addr(POSITION_MANAGER), config()).unwrap();
    assert_eq!(v.storage.config_manager(), addr(CONFIG_MANAGER));
    assert_eq!(v.storage.position_manager(), addr(POSITION_MANAGER));
    assert_eq!(v.get_lp_config(), config());
    assert_eq!(v.storage.get(&Key::Paused), Some(StorageValue::Flag(false)));
    assert_eq!(v.storage.get(&Key::Initialized), Some(StorageValue::Flag(true)));
    assert_eq!(v.storage.get(&Key::RequestRouter), None);
    assert!(require_initialized(&v.storage).is_ok());
    assert!(require_not_paused(&v.storage).is_ok());
}

#[test]
fn constructor_rejects_invalid_config() {
    let bad = [
        LpConfig { max_withdraw_utilization_bps: 10_001, ..config() },
        LpConfig { min_deposit_nav_factor_bps: 10_001, ..config() },
        LpConfig { lp_request_delay: 0, ..config() },
        LpConfig { lp_request_delay: SHARED_BUMP_SECONDS + 1, ..config() },
    ];
    for c in bad {
        assert_eq!(validate_config(&c), Err(VaultError::InvalidConfig));
        assert!(matches!(
            VaultContract::__constructor(addr(CONFIG_MANAGER), addr(POSITION_MANAGER), c),
            Err(VaultError::InvalidConfig)
        ));
    }
    let edge = LpConfig { max_withdraw_utilization_bps: 10_000, min_deposit_nav_factor_bps: 10_000, lp_request_delay: SHARED_BUMP_SECONDS };
    assert!(validate_config(&edge).is_ok());
}

#[test]
fn request_router_is_set_once_by_admin() {
    let mut v = VaultContract::__constructor(addr(CONFIG_MANAGER), addr(POSITION_MANAGER), config()).unwrap();
    assert_eq!(v.set_request_router(false, addr(ROUTER)), Err(VaultError::Unauthorized));
    assert_eq!(v.set_request_router(true, addr(ROUTER)), Ok(()));
    assert_eq!(v.storage.request_router(), addr(ROUTER));
    assert_eq!(v.set_request_router(true, addr(9)), Err(VaultError::AlreadyInitialized));
    assert_eq!(v.storage.request_router(), addr(ROUTER));
}

#[test]
fn position_manager_gates() {
    let v = vault();
    let pm = addr(POSITION_MANAGER);
    let other = addr(9);
    assert_eq!(v.require_pm(&other), Err(VaultError::InvalidCaller));
    assert_eq!(require_position_manager(&v.storage, &other), Err(VaultError::NotPositionManager));
    assert!(require_position_manager(&v.storage, &pm).is_ok());

    assert_eq!(v.receive_collateral(&other, 10), Err(VaultError::InvalidCaller));
    assert_eq!(v.receive_collateral(&pm, 0), Err(VaultError::InvalidAmount));
    assert_eq!(v.receive_collateral(&pm, 10), Ok(()));

    assert_eq!(v.transfer_claim(&other, 10, 0, 100), Err(VaultError::InvalidCaller));
    assert_eq!(v.transfer_claim(&pm, 0, 0, 100), Err(VaultError::InsufficientCash));
    assert_eq!(v.transfer_claim(&pm, 101, 0, 100), Err(VaultError::InsufficientCash));
    assert_eq!(v.transfer_claim(&pm, 10, -1, 100), Err(VaultError::InsufficientCash));
    assert_eq!(v.transfer_claim(&pm, 10, 91, 100), Err(VaultError::InsufficientCash));
    assert_eq!(v.transfer_claim(&pm, 10, 90, 100), Ok(()));

    assert_eq!(v.transfer_safety_claim(&other, 10, 100), Err(VaultError::InvalidCaller));
    assert_eq!(v.transfer_safety_claim(&pm, -5, 100), Err(VaultError::InsufficientCash));
    assert_eq!(v.transfer_safety_claim(&pm, 101, 100), Err(VaultError::InsufficientCash));
    assert_eq!(v.transfer_safety_claim(&pm, 100, 100), Ok(()));
}

#[test]
fn admission_checks_router_amount_and_pause() {
    let mut v = vault();
    let router = addr(ROUTER);
    assert_eq!(v.settle_deposit_admission(&addr(9), 10), Err(VaultError::InvalidCaller));
    assert_eq!(v.settle_deposit_admission(&router, 0), Err(VaultError::InvalidAmount));
    assert_eq!(v.settle_deposit_admission(&router, 10), Ok(Admission::Proceed));
    assert_eq!(v.settle_withdrawal_admission(&addr(9), 10, 10), Err(VaultError::InvalidCaller));
    assert_eq!(v.settle_withdrawal_admission(&router, 0, 10), Err(VaultError::InvalidAmount));
    assert_eq!(v.settle_withdrawal_admission(&router, 11, 10), Err(VaultError::InvalidAmount));
    assert_eq!(v.settle_withdrawal_admission(&router, 10, 10), Ok(Admission::Proceed));

    assert_eq!(v.pause(false), Err(VaultError::Unauthorized));
    assert_eq!(v.pause(true), Ok(()));
    assert_eq!(require_not_paused(&v.storage), Err(VaultError::Paused));
    assert_eq!(v.settle_deposit_admission(&router, 10), Ok(Admission::Refused(failed())));
    assert_eq!(v.settle_withdrawal_admission(&router, 10, 10), Ok(Admission::Refused(failed())));
    // Caller and amount are checked before the pause.
    assert_eq!(v.settle_deposit_admission(&router, -1), Err(VaultError::InvalidAmount));

    assert_eq!(v.unpause(false), Err(VaultError::Unauthorized));
    assert_eq!(v.unpause(true), Ok(()));
    assert_eq!(v.settle_deposit_admission(&router, 10), Ok(Admission::Proceed));
}

#[test]
fn first_deposit_into_clean_vault_prices_at_virtual_offset() {
    let v = vault();
    // 1000 * (0 + 1_000_000) / (0 + 1)
    assert_eq!(v.settle_deposit(1_000, &empty_snapshot(), 0), Ok(settled(1_000_000_000)));
}

#[test]
fn later_deposit_prices_on_nav() {
    let v = vault();
    let s = running_snapshot();
    // 500 * (1_000_000_000 + 1_000_000) / (1000 + 1) = 500_000_000.0
    let r = v.settle_deposit(500, &s, 1_000_000_000).unwrap();
    assert_eq!(r, settled(500 * 1_001_000_000 / 1_001));
    assert_eq!(r.amount, 500_000_000);
}

#[test]
fn deposit_fails_on_blocked_snapshot() {
    let v = vault();
    let mut s = running_snapshot();
    s.cash_shortfall = 1;
    assert!(settlement_blocked(&s));
    assert_eq!(v.settle_deposit(500, &s, 1_000_000_000), Ok(failed()));
    let mut s = running_snapshot();
    s.lp_blocked_side_count = 1;
    assert_eq!(v.settle_deposit(500, &s, 1_000_000_000), Ok(failed()));
}

#[test]
fn deposit_fails_when_nav_below_factor() {
    let v = vault();
    let mut s = running_snapshot();
    s.vault_nav = 899; // 899 * 10000 / 1000 = 8990 < 9000
    assert_eq!(v.settle_deposit(500, &s, 1_000_000_000), Ok(failed()));
    s.vault_nav = 900; // exactly 9000
    assert_eq!(v.settle_deposit(500, &s, 1_000_000_000).unwrap().status, SettlementStatus::Settled);
}

#[test]
fn deposit_fails_when_capacity_not_restored() {
    let v = vault();
    let mut s = running_snapshot();
    s.required_risk_backing = 1_501;
    assert_eq!(v.settle_deposit(500, &s, 1_000_000_000), Ok(failed()));
    s.required_risk_backing = 1_500;
    assert_eq!(v.settle_deposit(500, &s, 1_000_000_000).unwrap().status, SettlementStatus::Settled);
}

#[test]
fn deposit_fails_when_it_buys_no_share() {
    let v = vault();
    let mut s = running_snapshot();
    s.vault_nav = 10_000_000_000;
    s.cash_lp_equity = 10_000_000_000;
    // 1 * (1 + 1_000_000) / 10_000_000_001 = 0
    assert_eq!(v.settle_deposit(1, &s, 1), Ok(failed()));
}

#[test]
fn deposit_arithmetic_error_on_nav_factor_overflow() {
    let v = vault();
    let mut s = running_snapshot();
    s.vault_nav = i128::MAX / 2;
    assert_eq!(v.settle_deposit(500, &s, 1_000_000_000), Err(VaultError::ArithmeticError));
}

#[test]
fn withdrawal_pays_pro_rata() {
    let v = vault();
    let s = running_snapshot();
    // 100_000_000 * 1001 / (1_000_000_000 + 1_000_000) = 100
    assert_eq!(v.settle_withdrawal(100_000_000, &s, 1_000_000_000), Ok(settled(100)));
}

#[test]
fn withdrawal_fails_above_free_capital() {
    let v = vault();
    let mut s = running_snapshot();
    s.free_lp_capital = 99;
    assert_eq!(v.settle_withdrawal(100_000_000, &s, 1_000_000_000), Ok(failed()));
}

#[test]
fn withdrawal_fails_above_utilization_ceiling() {
    let v = vault();
    let mut s = running_snapshot();
    s.free_lp_capital = 1_000;
    // Paying 700 leaves 300 of equity against 300 of risk: 100% > 80%.
    let shares = 700_000_000;
    assert_eq!(v.settle_withdrawal(shares, &s, 1_000_000_000), Ok(failed()));
    // Paying 600 leaves 400: ceil(300 * 10000 / 400) = 7500 <= 8000.
    assert_eq!(v.settle_withdrawal(600_000_000, &s, 1_000_000_000), Ok(settled(600)));
}

#[test]
fn full_exit_takes_all_cash_equity() {
    let v = vault();
    let mut s = empty_snapshot();
    s.cash_lp_equity = 1_234;
    s.vault_nav = 1_200;
    s.physical_cash = 1_234;
    s.free_lp_capital = 1_234;
    assert_eq!(v.settle_withdrawal(1_000, &s, 1_000), Ok(settled(1_234)));
}

#[test]
fn emptying_supply_with_open_positions_fails() {
    let v = vault();
    let mut s = running_snapshot();
    s.free_lp_capital = 1_000_000;
    s.total_risk_units = 0;
    assert_eq!(v.settle_withdrawal(1_000, &s, 1_000), Ok(failed()));
}

#[test]
fn withdrawal_arithmetic_error_on_negative_nav() {
    let v = vault();
    let mut s = running_snapshot();
    s.vault_nav = -5;
    assert_eq!(v.settle_withdrawal(10, &s, 1_000), Err(VaultError::ArithmeticError));
}

#[test]
fn lp_config_and_version_updates() {
    let mut v = vault();
    let new_config = LpConfig { max_withdraw_utilization_bps: 5_000, ..config() };
    assert_eq!(v.set_lp_config(false, new_config), Err(VaultError::Unauthorized));
    assert_eq!(v.set_lp_config(true, LpConfig { lp_request_delay: 0, ..config() }), Err(VaultError::InvalidConfig));
    assert_eq!(v.get_lp_config(), config());
    assert_eq!(v.set_lp_config(true, new_config), Ok(()));
    assert_eq!(v.get_lp_config(), new_config);

    assert_eq!(v.migrate(false, 2), Err(VaultError::Unauthorized));
    assert_eq!(v.migrate(true, 2), Ok(()));
    assert_eq!(v.storage.get(&Key::Version), Some(StorageValue::Number(2)));
}

#[test]
fn storage_reads_back_writes() {
    let mut s = InstanceStorage::new();
    assert_eq!(s.get(&Key::Paused), None);
    assert!(require_initialized(&s).is_err());
    s.set(&Key::Paused, &StorageValue::Flag(true));
    s.set(&Key::Version, &StorageValue::Number(3));
    assert_eq!(s.get(&Key::Paused), Some(StorageValue::Flag(true)));
    assert_eq!(s.get(&Key::Version), Some(StorageValue::Number(3)));
    s.save_version(4);
    assert_eq!(s.get(&Key::Version), Some(StorageValue::Number(4)));
    assert_eq!(s.get_flag(&Key::Paused), Some(true));
    assert_eq!(s.get_address(&Key::Paused), None);
}

#[test]
fn upgrade_roles_and_failure() {
    assert_eq!(upgrade_role(UpgradeStep::Propose), Role::Upgrader);
    assert_eq!(upgrade_role(UpgradeStep::Execute), Role::Upgrader);
    assert_eq!(upgrade_role(UpgradeStep::Cancel), Role::Pauser);
    assert_eq!(upgrade_failure_error(UpgradeFailure::NoPending), VaultError::UpgradeNoPending);
    assert_eq!(upgrade_failure_error(UpgradeFailure::TimelockNotElapsed), VaultError::UpgradeTimelockNotElapsed);
    assert_eq!(upgrade_failure_error(UpgradeFailure::HashMismatch), VaultError::UpgradeHashMismatch);
}

const HASH_A: WasmHash = WasmHash { high: 0xAA, low: 0xAA };
const HASH_B: WasmHash = WasmHash { high: 0xBB, low: 0xBB };

#[test]
fn test_upgrade_without_proposal_errors_no_pending() {
    let mut t = UpgradeTimelock::new();
    assert_eq!(t.execute_upgrade(true, HASH_A, 0), Err(VaultError::UpgradeNoPending));
}

#[test]
fn test_upgrade_before_eta_errors_timelock_not_elapsed() {
    let mut t = UpgradeTimelock::new();
    t.propose_upgrade(true, HASH_A, 1_000_000, 86_400).unwrap();
    assert_eq!(t.execute_upgrade(true, HASH_A, 1_000_000), Err(VaultError::UpgradeTimelockNotElapsed));
}

#[test]
fn test_upgrade_with_mismatched_hash_errors_hash_mismatch() {
    let mut t = UpgradeTimelock::new();
    t.propose_upgrade(true, HASH_A, 1_000_000, 86_400).unwrap();
    assert_eq!(t.execute_upgrade(true, HASH_B, 1_000_000 + 10_000_000), Err(VaultError::UpgradeHashMismatch));
}

#[test]
fn test_upgrade_after_cancel_errors_no_pending() {
    let mut t = UpgradeTimelock::new();
    t.propose_upgrade(true, HASH_A, 0, 86_400).unwrap();
    t.cancel_upgrade(true).unwrap();
    assert_eq!(t.execute_upgrade(true, HASH_A, 1_000_000), Err(VaultError::UpgradeNoPending));
}

#[test]
fn upgrade_roles_and_single_use() {
    let mut t = UpgradeTimelock::new();
    assert_eq!(t.propose_upgrade(false, HASH_A, 0, 10), Err(VaultError::Unauthorized));
    t.propose_upgrade(true, HASH_A, 0, 10).unwrap();
    assert_eq!(t.cancel_upgrade(false), Err(VaultError::Unauthorized));
    assert_eq!(t.execute_upgrade(false, HASH_A, 10), Err(VaultError::Unauthorized));
    assert_eq!(t.execute_upgrade(true, HASH_A, 10), Ok(()));
    assert_eq!(t.execute_upgrade(true, HASH_A, 10), Err(VaultError::UpgradeNoPending));
}

#[test]
fn mul_div_helpers() {
    assert_eq!(mul_div_floor(7, 3, 2), Ok(10));
    assert_eq!(mul_div_floor(-1, 3, 2), Err(VaultError::ArithmeticError));
    assert_eq!(mul_div_floor(1, 3, 0), Err(VaultError::ArithmeticError));
    assert_eq!(mul_div_floor(i128::MAX, 2, 1), Err(VaultError::ArithmeticError));
    assert_eq!(mul_div_ceil(7, 3, 2), Ok(11));
    assert_eq!(mul_div_ceil(6, 3, 2), Ok(9));
    assert_eq!(mul_div_ceil(0, 3, 0), Ok(0));
    assert_eq!(mul_div_ceil(i128::MAX, 2, 1), Err(VaultError::ArithmeticError));
    assert_eq!(mul_div_ceil(1, 1, 0), Err(VaultError::ArithmeticError));
}

#[test]
fn deposit_never_dilutes_on_concrete_values() {
    let v = vault();
    let s = running_snapshot();
    let supply = 1_000_000_000i128;
    for assets in [1i128, 3, 77, 999, 123_456] {
        if let Ok(SettlementResult { status: SettlementStatus::Settled, amount }) = v.settle_deposit(assets, &s, supply) {
            assert!(amount * (s.vault_nav + 1) <= assets * (supply + 1_000_000));
        }
    }
}
