use soroban_sdk::Env;
use wintrader_vault::address_map::LockupBook;
use wintrader_vault::errors::VaultError;
use wintrader_vault::logic::{
    assets_to_shares, free_liquidity, lockup_expires_at, lp_share_basis, lp_total_assets,
    propagate_lockup_on_transfer, record_lockup, require_free_liquidity, require_fresh_pnl_sync,
    require_lockup_elapsed, require_payout_liquidity, shares_to_assets, total_assets_excl_pnl,
    LpLedger, PNL_SYNC_MAX_AGE_SECS,
};
use wintrader_vault::math::Rounding;
use wintrader_vault::types::{Address, Lockup};

const ONE_USDC: i128 = 10_000_000;

fn addr(n: u128) -> Address {
    Address { is_contract: false, key_high: 7, key_low: n }
}

fn empty_ledger() -> LpLedger {
    LpLedger {
        raw_assets: 0,
        reserved_usdc: 0,
        unclaimed_fees: 0,
        net_global_trader_pnl: 0,
        last_pnl_sync: 0,
        total_supply: 0,
        decimals_offset: 6,
    }
}

/// Deposits `assets` at the current price: shares rounded down, custody and
/// supply grow.
fn deposit(env: &Env, l: &mut LpLedger, assets: i128) -> i128 {
    let shares = assets_to_shares(env, l, assets, Rounding::Floor).unwrap();
    l.raw_assets += assets;
    l.total_supply += shares;
    shares
}

/// What `shares` may withdraw: their value rounded down, capped by free liquidity.
fn max_withdraw(env: &Env, l: &LpLedger, shares: i128) -> i128 {
    let value = shares_to_assets(env, l, shares, Rounding::Floor).unwrap();
    value.min(free_liquidity(l))
}

#[test]
fn test_withdraw_cannot_skim_fee_buffer() {
    let env = Env::default();
    let mut l = empty_ledger();
    let stake = 1_000 * ONE_USDC;
    let shares_a = deposit(&env, &mut l, stake);
    let shares_b = deposit(&env, &mut l, stake);

    // 600 USDC of fee revenue arrives and is booked as unclaimed fees.
    l.raw_assets += 600 * ONE_USDC;
    l.unclaimed_fees += 600 * ONE_USDC;

    let max_w = max_withdraw(&env, &l, shares_a);
    assert!(max_w <= stake, "max_withdraw must not exceed the LP's equity: got {max_w}, stake {stake}");
    assert!(max_w >= stake - 10, "max_withdraw must be within dust of the LP's equity: got {max_w}");

    // Withdrawing at the old inflated rate needs more shares than A holds.
    let skim_shares = assets_to_shares(&env, &l, 1_300 * ONE_USDC, Rounding::Ceil).unwrap();
    assert!(skim_shares > shares_a, "withdrawing above LP equity must fail");

    // A exits in full at the fair rate: burn the shares the withdrawal costs.
    assert!(require_free_liquidity(&l, max_w).is_ok());
    let burned = assets_to_shares(&env, &l, max_w, Rounding::Ceil).unwrap();
    assert!(burned <= shares_a);
    l.raw_assets -= max_w;
    l.total_supply -= burned;

    // The fee buffer is intact and fully backed by custody.
    assert_eq!(l.unclaimed_fees, 600 * ONE_USDC);
    assert!(l.raw_assets - l.unclaimed_fees >= stake);

    // B is unaffected: their full stake is still withdrawable (± dust).
    let max_b = max_withdraw(&env, &l, shares_b);
    assert!(max_b >= stake - 10, "remaining LP must keep their full equity: got {max_b}, stake {stake}");
}

#[test]
fn test_share_price_excludes_positive_trader_pnl() {
    let env = Env::default();
    let mut l = empty_ledger();
    let stake = 1_000 * ONE_USDC;
    let shares_lp1 = deposit(&env, &mut l, stake);

    // Traders are up 400: LP equity is 1000 - 400 = 600.
    l.net_global_trader_pnl = 400 * ONE_USDC;
    let max_w = max_withdraw(&env, &l, shares_lp1);
    assert!(max_w <= 600 * ONE_USDC && max_w >= 600 * ONE_USDC - 10,
        "withdrawable equity must exclude the trader-PnL backing: got {max_w}");

    let shares_lp2 = deposit(&env, &mut l, 600 * ONE_USDC);
    let ratio = shares_lp2 * 1_000_000 / shares_lp1;
    assert!((999_000..=1_001_000).contains(&ratio),
        "new deposit must be priced on LP equity, got share ratio {ratio} ppm");
}

#[test]
fn test_dust_transfer_does_not_extend_existing_holder_lockup() {
    let mut book = LockupBook::new();
    let victim = addr(1);
    let attacker = addr(2);

    record_lockup(&mut book, &victim, 1_000, 300);
    assert_eq!(lockup_expires_at(&book, &victim), 1_300);

    // At 1301 the attacker deposits (lockup until 1601) and dusts the victim,
    // who already holds shares.
    record_lockup(&mut book, &attacker, 1_301, 300);
    let event = propagate_lockup_on_transfer(&mut book, &attacker, &victim, 100 * ONE_USDC, 1_301);
    assert_eq!(event, None);
    assert_eq!(lockup_expires_at(&book, &victim), 1_300,
        "an inbound dust transfer must not extend an existing holder's lockup");
    assert!(require_lockup_elapsed(&book, &victim, 1_301).is_ok());
}

#[test]
fn test_transfer_to_fresh_address_still_inherits_lockup() {
    let mut book = LockupBook::new();
    let depositor = addr(1);
    let fresh = addr(2);

    record_lockup(&mut book, &depositor, 1_000, 300);
    let event = propagate_lockup_on_transfer(&mut book, &depositor, &fresh, 0, 1_000);
    assert_eq!(event, Some(Lockup { user: fresh, expires_at: 1_300 }));
    assert_eq!(lockup_expires_at(&book, &fresh), 1_300, "a fresh recipient must inherit the sender's lockup");
    assert_eq!(require_lockup_elapsed(&book, &fresh, 1_000), Err(VaultError::CooldownNotElapsed),
        "fresh recipient must observe the cooldown");
}

#[test]
fn test_pay_profit_fully_backed_winner_succeeds() {
    let mut l = empty_ledger();
    l.raw_assets = 1_000 * ONE_USDC;
    l.total_supply = 1_000 * ONE_USDC * 1_000_000;
    l.net_global_trader_pnl = 600 * ONE_USDC;
    assert!(require_payout_liquidity(&l, 600 * ONE_USDC).is_ok());
}

#[test]
fn test_withdraw_with_stale_pnl_sync_panics_while_reserved() {
    let mut l = empty_ledger();
    l.raw_assets = 1_000 * ONE_USDC;
    l.reserved_usdc = 100 * ONE_USDC;
    l.last_pnl_sync = 1_000;

    assert!(require_fresh_pnl_sync(&l, 1_000 + PNL_SYNC_MAX_AGE_SECS).is_ok());
    assert_eq!(require_fresh_pnl_sync(&l, 1_001 + PNL_SYNC_MAX_AGE_SECS), Err(VaultError::StalePnlSync),
        "stale PnL sync must block withdraw");

    l.last_pnl_sync = 1_001 + PNL_SYNC_MAX_AGE_SECS;
    assert!(require_fresh_pnl_sync(&l, 1_001 + PNL_SYNC_MAX_AGE_SECS).is_ok());
}

#[test]
fn test_withdraw_with_stale_sync_but_nothing_reserved_succeeds() {
    let mut l = empty_ledger();
    l.raw_assets = 1_000 * ONE_USDC;
    l.last_pnl_sync = 1_000;
    assert!(require_fresh_pnl_sync(&l, 1_000_000).is_ok());
}

#[test]
fn test_free_liquidity_floor_at_zero() {
    let mut l = empty_ledger();
    l.raw_assets = 100 * ONE_USDC;
    l.reserved_usdc = 100 * ONE_USDC;
    assert_eq!(free_liquidity(&l), 0, "free_liquidity must be 0 when reserved equals total_assets");
    l.reserved_usdc = 150 * ONE_USDC;
    assert_eq!(free_liquidity(&l), 0);
}

#[test]
fn test_free_liquidity_accounts_for_unclaimed_fees() {
    let mut l = empty_ledger();
    l.raw_assets = 100 * ONE_USDC;
    l.unclaimed_fees = 10 * ONE_USDC;
    assert_eq!(free_liquidity(&l), 90 * ONE_USDC, "free_liquidity must subtract unclaimed_fees");
}

#[test]
fn test_free_liquidity_accounts_for_positive_net_pnl() {
    let mut l = empty_ledger();
    l.raw_assets = 100 * ONE_USDC;
    l.net_global_trader_pnl = 20 * ONE_USDC;
    assert_eq!(free_liquidity(&l), 80 * ONE_USDC, "free_liquidity must subtract positive net_global_trader_pnl");
}

#[test]
fn test_free_liquidity_ignores_negative_net_pnl() {
    let mut l = empty_ledger();
    l.raw_assets = 100 * ONE_USDC;
    l.net_global_trader_pnl = -30 * ONE_USDC;
    assert_eq!(free_liquidity(&l), 100 * ONE_USDC, "free_liquidity must ignore negative net_global_trader_pnl");
}

#[test]
fn test_free_liquidity_full_formula() {
    let mut l = empty_ledger();
    l.raw_assets = 200 * ONE_USDC;
    l.reserved_usdc = 50 * ONE_USDC;
    l.unclaimed_fees = 10 * ONE_USDC;
    l.net_global_trader_pnl = 30 * ONE_USDC;
    assert_eq!(free_liquidity(&l), 110 * ONE_USDC,
        "free_liquidity = total_assets - reserved - unclaimed_fees - max(0, net_pnl)");
}

#[test]
fn test_lockup_expires_at_zero_for_user_who_never_deposited() {
    let book = LockupBook::new();
    assert_eq!(lockup_expires_at(&book, &addr(9)), 0);
}

#[test]
fn test_deposit_sets_lockup_expires_at_now_plus_cooldown() {
    let mut book = LockupBook::new();
    let user = addr(1);
    let event = record_lockup(&mut book, &user, 1000, 300);
    assert_eq!(event, Lockup { user, expires_at: 1300 });
    assert_eq!(lockup_expires_at(&book, &user), 1300);
}

#[test]
fn test_withdraw_reverts_before_lockup_expiry() {
    let mut book = LockupBook::new();
    let user = addr(1);
    record_lockup(&mut book, &user, 1000, 300);
    assert_eq!(require_lockup_elapsed(&book, &user, 1299), Err(VaultError::CooldownNotElapsed));
}

#[test]
fn test_withdraw_succeeds_at_lockup_expiry() {
    let mut book = LockupBook::new();
    let user = addr(1);
    record_lockup(&mut book, &user, 1000, 300);
    assert!(require_lockup_elapsed(&book, &user, 1300).is_ok());
}

#[test]
fn test_withdraw_succeeds_after_lockup_expiry() {
    let mut book = LockupBook::new();
    let user = addr(1);
    record_lockup(&mut book, &user, 1000, 300);
    assert!(require_lockup_elapsed(&book, &user, 9999).is_ok());
}

#[test]
fn test_second_deposit_resets_lockup_to_new_expiry() {
    let mut book = LockupBook::new();
    let user = addr(1);
    record_lockup(&mut book, &user, 1000, 300);
    assert_eq!(lockup_expires_at(&book, &user), 1300);
    record_lockup(&mut book, &user, 1100, 300);
    assert_eq!(lockup_expires_at(&book, &user), 1400);
    assert!(require_lockup_elapsed(&book, &user, 1300).is_err());
    assert!(require_lockup_elapsed(&book, &user, 1400).is_ok());
}

#[test]
fn test_lockup_per_user_independent() {
    let mut book = LockupBook::new();
    let alice = addr(1);
    let bob = addr(2);
    record_lockup(&mut book, &alice, 1000, 300);
    record_lockup(&mut book, &bob, 1500, 300);
    assert_eq!(lockup_expires_at(&book, &alice), 1300);
    assert_eq!(lockup_expires_at(&book, &bob), 1800);
    assert!(require_lockup_elapsed(&book, &alice, 1700).is_ok());
    assert!(require_lockup_elapsed(&book, &bob, 1700).is_err());
}

#[test]
fn test_share_transfer_propagates_lockup() {
    let mut book = LockupBook::new();
    let alice = addr(1);
    let bob = addr(2);
    record_lockup(&mut book, &alice, 1000, 300);
    assert_eq!(lockup_expires_at(&book, &bob), 0);
    propagate_lockup_on_transfer(&mut book, &alice, &bob, 0, 1100);
    assert_eq!(lockup_expires_at(&book, &bob), 1300);
}

#[test]
fn test_share_transfer_recipient_cannot_bypass_lockup() {
    let mut book = LockupBook::new();
    let alice = addr(1);
    let bob = addr(2);
    record_lockup(&mut book, &alice, 1000, 300);
    propagate_lockup_on_transfer(&mut book, &alice, &bob, 0, 1100);
    assert_eq!(require_lockup_elapsed(&book, &bob, 1100), Err(VaultError::CooldownNotElapsed));
}

#[test]
fn test_share_transfer_keeps_recipients_longer_lockup() {
    let mut book = LockupBook::new();
    let alice = addr(1);
    let bob = addr(2);
    record_lockup(&mut book, &bob, 1000, 4000);
    assert_eq!(lockup_expires_at(&book, &bob), 5000);
    record_lockup(&mut book, &alice, 1000, 300);
    assert_eq!(lockup_expires_at(&book, &alice), 1300);
    propagate_lockup_on_transfer(&mut book, &alice, &bob, 0, 1000);
    assert_eq!(lockup_expires_at(&book, &bob), 5000);
}

#[test]
fn test_share_transfer_when_sender_lockup_expired_no_propagation() {
    let mut book = LockupBook::new();
    let alice = addr(1);
    let bob = addr(2);
    record_lockup(&mut book, &alice, 1000, 300);
    assert_eq!(lockup_expires_at(&book, &alice), 1300);
    assert_eq!(propagate_lockup_on_transfer(&mut book, &alice, &bob, 0, 9999), None);
    assert_eq!(lockup_expires_at(&book, &bob), 0);
}

#[test]
fn test_transfer_from_propagates_lockup() {
    let mut book = LockupBook::new();
    let alice = addr(1);
    let bob = addr(2);
    record_lockup(&mut book, &alice, 1000, 300);
    propagate_lockup_on_transfer(&mut book, &alice, &bob, 0, 1100);
    assert_eq!(lockup_expires_at(&book, &bob), 1300);
}

#[test]
fn lp_total_assets_excludes_fees_and_positive_pnl() {
    let mut l = empty_ledger();
    l.raw_assets = 1_000;
    l.unclaimed_fees = 100;
    l.net_global_trader_pnl = 250;
    assert_eq!(lp_total_assets(&l), 650);
    // Custody is LP assets + fees + positive PnL.
    assert_eq!(lp_total_assets(&l) + l.unclaimed_fees + l.net_global_trader_pnl, l.raw_assets);
    l.net_global_trader_pnl = 2_000;
    assert_eq!(lp_total_assets(&l), 0);
}

#[test]
fn total_assets_excl_pnl_keeps_pnl_in() {
    let mut l = empty_ledger();
    l.raw_assets = 1_000;
    l.unclaimed_fees = 100;
    l.net_global_trader_pnl = 250;
    assert_eq!(total_assets_excl_pnl(&l), 900);
    assert_eq!(total_assets_excl_pnl(&l), lp_total_assets(&l) + 250);
    l.unclaimed_fees = 2_000;
    assert_eq!(total_assets_excl_pnl(&l), 0);
}

#[test]
fn lp_share_basis_adds_virtual_terms() {
    let mut l = empty_ledger();
    l.raw_assets = 500;
    l.total_supply = 42;
    assert_eq!(lp_share_basis(&l), (42 + 1_000_000, 501));
    l.decimals_offset = 0;
    assert_eq!(lp_share_basis(&l), (43, 501));
}

#[test]
fn conversions_reject_negative_amounts_and_pass_zero() {
    let env = Env::default();
    let l = empty_ledger();
    assert_eq!(assets_to_shares(&env, &l, -1, Rounding::Floor), Err(VaultError::ZeroAmount));
    assert_eq!(shares_to_assets(&env, &l, -1, Rounding::Floor), Err(VaultError::ZeroAmount));
    assert_eq!(assets_to_shares(&env, &l, 0, Rounding::Ceil), Ok(0));
    assert_eq!(shares_to_assets(&env, &l, 0, Rounding::Ceil), Ok(0));
}

#[test]
fn conversions_round_as_asked() {
    let env = Env::default();
    let mut l = empty_ledger();
    l.decimals_offset = 0;
    l.raw_assets = 2;
    l.total_supply = 2;
    // shares: 10 * (2 + 1) / (2 + 1) = 10 exactly.
    assert_eq!(assets_to_shares(&env, &l, 10, Rounding::Floor), Ok(10));
    l.raw_assets = 3;
    // 10 * 3 / 4 = 7.5
    assert_eq!(assets_to_shares(&env, &l, 10, Rounding::Floor), Ok(7));
    assert_eq!(assets_to_shares(&env, &l, 10, Rounding::Ceil), Ok(8));
    assert_eq!(assets_to_shares(&env, &l, 10, Rounding::Truncate), Ok(7));
    // assets: 10 * 4 / 3 = 13.33
    assert_eq!(shares_to_assets(&env, &l, 10, Rounding::Floor), Ok(13));
    assert_eq!(shares_to_assets(&env, &l, 10, Rounding::Ceil), Ok(14));
}

#[test]
fn conversions_survive_intermediate_overflow() {
    let env = Env::default();
    let mut l = empty_ledger();
    l.decimals_offset = 0;
    l.total_supply = 100_000_000_000_000_000_000 - 1; // share basis 1e20
    l.raw_assets = 9_999; // asset basis 1e4
    let assets: i128 = 100_000_000_000_000_000_000; // 1e20: the product 1e40 leaves i128
    let shares = assets_to_shares(&env, &l, assets, Rounding::Floor).unwrap();
    assert_eq!(shares, 1_000_000_000_000_000_000_000_000_000_000_000_000i128); // 1e36
}

#[test]
fn payout_gate_counts_only_remaining_liability() {
    let mut l = empty_ledger();
    l.raw_assets = 1_000;
    l.reserved_usdc = 100;
    l.unclaimed_fees = 50;
    l.net_global_trader_pnl = 700;
    // free = 1000 - 100 - 50 - max(0, 700 - a)
    // a = 500: free = 850 - 200 = 650 >= 500
    assert!(require_payout_liquidity(&l, 500).is_ok());
    // a = 900: free = 850 - 0 = 850 < 900
    assert_eq!(require_payout_liquidity(&l, 900), Err(VaultError::InsufficientFreeLiquidity));
}

#[test]
fn free_liquidity_gate_refuses_above_free() {
    let mut l = empty_ledger();
    l.raw_assets = 100;
    l.reserved_usdc = 40;
    assert!(require_free_liquidity(&l, 60).is_ok());
    assert_eq!(require_free_liquidity(&l, 61), Err(VaultError::InsufficientFreeLiquidity));
}

#[test]
fn roundtrip_loses_at_most_one_unit() {
    let env = Env::default();
    let mut l = empty_ledger();
    l.raw_assets = 1_000_000 * ONE_USDC;
    l.total_supply = 1_000_000 * ONE_USDC * 1_000_000;
    for mult in [1i128, 7, 333, 1000] {
        let assets = mult * ONE_USDC + 3;
        let shares = assets_to_shares(&env, &l, assets, Rounding::Floor).unwrap();
        let back = shares_to_assets(&env, &l, shares, Rounding::Floor).unwrap();
        assert!(back <= assets);
        assert!(back >= assets - 1);
    }
}

#[test]
fn payout_gate_boundary() {
    let mut l = empty_ledger();
    l.raw_assets = 100 * ONE_USDC;
    l.reserved_usdc = 50 * ONE_USDC;
    assert!(require_payout_liquidity(&l, 50 * ONE_USDC).is_ok());
    assert_eq!(require_payout_liquidity(&l, 50 * ONE_USDC + 1), Err(VaultError::InsufficientFreeLiquidity));
}
