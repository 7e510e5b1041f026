use vstd::prelude::*;

use crate::contract::{
    blocked, deposit_admitted, deposit_outcome, deposit_priceable, deposit_shares, full_exit,
    post_utilization, restores_capacity, withdrawal_assets, withdrawal_outcome,
    withdrawal_priceable, withdrawal_refused, VIRTUAL_ASSETS, VIRTUAL_SHARES,
};
use crate::logic::{
    asset_basis, expiry_or_zero, free_assets, lockup_inherited, lp_assets, payout_liquidity,
    share_basis, LpLedger,
};
use crate::math::{floor_div, pos_part};
use crate::mock_token::{
    configured_state, faucet_within_cap, mint_allowed, minted_by, minted_state, protocol_set_state,
    MockTokenView,
};
use crate::storage::{stored_address, stored_config, stored_flag, Key, StorageValue};
use crate::types::{AccountingSnapshot, Address, LpConfig, SettlementStatus};

verus! {

proof fn lemma_floor_mul_le(n: int, d: int)
    requires
        d > 0,
    ensures
        (n / d) * d <= n,
        n < (n / d) * d + d,
{
    vstd::arithmetic::div_mod::lemma_fundamental_div_mod(n, d);
    let q = n / d;
    let r = n % d;
    assert(q * d == d * q) by (nonlinear_arith);
}

proof fn lemma_floor_within(n: int, d: int)
    requires
        d >= 1,
    ensures
        n >= 0 ==> 0 <= n / d <= n,
        n < 0 ==> n <= n / d < 0,
{
    lemma_floor_mul_le(n, d);
    let q = n / d;
    if n >= 0 {
        assert(0 <= q <= n) by (nonlinear_arith) requires q * d <= n, n < q * d + d, d >= 1, n >= 0;
    } else {
        assert(n <= q < 0) by (nonlinear_arith) requires q * d <= n, n < q * d + d, d >= 1, n < 0;
    }
}

/// The assets a priceable withdrawal pays fit the amount type.
proof fn lemma_withdrawal_assets_fit(s: AccountingSnapshot, supply: int, shares: int)
    requires
        withdrawal_priceable(s, supply, shares),
    ensures
        crate::math::fits_i128(withdrawal_assets(s, supply, shares)),
{
    if !full_exit(s, supply, shares) {
        lemma_floor_within(shares * (s.vault_nav + VIRTUAL_ASSETS), supply + VIRTUAL_SHARES);
    }
}

/// A settled deposit mints at least one share and reports exactly the shares
/// minted; a failed one reports nothing.
pub proof fn law_deposit_result_shape(c: LpConfig, s: AccountingSnapshot, supply: int, assets: int)
    ensures
        deposit_outcome(c, s, supply, assets) matches Ok(res) ==> {
            &&& res.status == SettlementStatus::Settled ==> res.amount > 0
                && res.amount == deposit_shares(s, supply, assets)
            &&& res.status == SettlementStatus::Failed ==> res.amount == 0
        },
{
    if deposit_outcome(c, s, supply, assets) is Ok && deposit_admitted(c, s, supply, assets)
        && deposit_priceable(s, supply, assets) && deposit_shares(s, supply, assets) > 0 {
        let n = assets * (supply + VIRTUAL_SHARES);
        let d = s.vault_nav + VIRTUAL_ASSETS;
        lemma_floor_mul_le(n, d);
        assert(deposit_shares(s, supply, assets) <= n) by (nonlinear_arith)
            requires
                (n / d) * d <= n,
                d >= 1,
                n / d > 0,
                deposit_shares(s, supply, assets) == n / d;
    }
}

/// Once the snapshot is priced without an arithmetic failure, a deposit
/// settles exactly when it passes every gate and buys at least one share.
pub proof fn law_deposit_settles_iff_gates_pass(c: LpConfig, s: AccountingSnapshot, supply: int, assets: int)
    ensures
        deposit_outcome(c, s, supply, assets) matches Ok(res) ==> (res.status == SettlementStatus::Settled
            <==> (deposit_admitted(c, s, supply, assets) && deposit_shares(s, supply, assets) > 0)),
{
}

/// Once priced without an arithmetic failure, a withdrawal settles exactly
/// when no gate refuses it: unblocked snapshot, payout within free capital,
/// utilization within the ceiling, and no unsafe emptying of the supply.
pub proof fn law_withdrawal_settles_iff_gates_pass(c: LpConfig, s: AccountingSnapshot, supply: int, shares: int)
    ensures
        withdrawal_outcome(c, s, supply, shares) matches Ok(res) ==> (res.status == SettlementStatus::Settled
            <==> !withdrawal_refused(c, s, supply, shares)),
{
}

/// For a later deposit (shares already outstanding) on an unblocked snapshot
/// whose cash equity plus the deposit covers the risk backing, with positive
/// cash LP equity and NAV, and a price that buys at least one share: the
/// deposit settles, minting `floor(assets * (supply + V_s) / (nav + V_a))`
/// shares, exactly when `floor(nav * 10000 / cash_lp_equity)` reaches the
/// configured factor; otherwise it fails.
pub proof fn law_later_deposit_gate_is_nav_to_equity_factor(c: LpConfig, s: AccountingSnapshot, supply: int, assets: int)
    requires
        supply > 0,
        assets > 0,
        s.cash_shortfall <= 0,
        s.lp_blocked_side_count == 0,
        s.cash_lp_equity + assets <= i128::MAX,
        s.cash_lp_equity + assets >= s.required_risk_backing,
        s.cash_lp_equity > 0,
        s.vault_nav > 0,
        s.vault_nav * 10000 <= i128::MAX,
        assets * (supply + 1_000_000) <= i128::MAX,
        (assets * (supply + 1_000_000)) / (s.vault_nav + 1) > 0,
    ensures
        deposit_outcome(c, s, supply, assets) is Ok,
        deposit_outcome(c, s, supply, assets) matches Ok(res) ==> {
            &&& (res.status == SettlementStatus::Settled)
                <==> (s.vault_nav * 10000) / (s.cash_lp_equity as int) >= c.min_deposit_nav_factor_bps
            &&& res.status == SettlementStatus::Settled
                ==> res.amount == (assets * (supply + 1_000_000)) / (s.vault_nav + 1)
            &&& res.status == SettlementStatus::Failed ==> res.amount == 0
        },
{
    assert(assets * (supply + 1_000_000) >= 0) by (nonlinear_arith) requires assets > 0, supply > 0;
}

/// Physical cash and non-LP claims only decide whether a vault is clean for a
/// first deposit: once shares are outstanding, they do not change how a
/// deposit is answered.
pub proof fn law_later_deposit_ignores_cash_and_claims(c: LpConfig, s: AccountingSnapshot, supply: int, assets: int, cash: i128, claims: i128)
    requires
        supply != 0,
    ensures
        deposit_outcome(c, s, supply, assets)
            == deposit_outcome(c, AccountingSnapshot { physical_cash: cash, non_lp_claims: claims, ..s }, supply, assets),
{
}

/// A settled deposit was taken on a snapshot with no cash shortfall and no
/// blocked side, and the cash LP equity plus the deposit covers the required
/// risk backing.
pub proof fn law_settled_deposit_is_backed(c: LpConfig, s: AccountingSnapshot, supply: int, assets: int)
    requires
        assets > 0,
    ensures
        deposit_outcome(c, s, supply, assets) matches Ok(res) ==> (res.status == SettlementStatus::Settled ==> {
            &&& s.cash_shortfall <= 0
            &&& s.lp_blocked_side_count == 0
            &&& s.cash_lp_equity + assets >= s.required_risk_backing
        }),
{
}

/// A settled withdrawal was taken on a snapshot with no cash shortfall and no
/// blocked side, pays no more than the free LP capital, and, where risk is
/// open, leaves positive cash equity with `risk * 10000 <= ceiling * equity`.
pub proof fn law_settled_withdrawal_respects_gates(c: LpConfig, s: AccountingSnapshot, supply: int, shares: int)
    requires
        crate::contract::config_valid(c),
    ensures
        withdrawal_outcome(c, s, supply, shares) matches Ok(res) ==> (res.status == SettlementStatus::Settled ==> {
            &&& s.cash_shortfall <= 0
            &&& s.lp_blocked_side_count == 0
            &&& res.amount <= s.free_lp_capital
            &&& s.total_risk_units > 0 ==> {
                &&& s.cash_lp_equity - res.amount > 0
                &&& s.total_risk_units * 10000 <= c.max_withdraw_utilization_bps * (s.cash_lp_equity - res.amount)
            }
        }),
{
    if withdrawal_outcome(c, s, supply, shares) is Ok && withdrawal_priceable(s, supply, shares) {
        lemma_withdrawal_assets_fit(s, supply, shares);
        let a = withdrawal_assets(s, supply, shares);
        if !withdrawal_refused(c, s, supply, shares) && s.total_risk_units > 0 {
            let pe = crate::contract::post_equity(s, a);
            if s.total_risk_units < 0 {
            } else {
                assert(pe > 0);
                assert(pe == s.cash_lp_equity - a);
                let n = s.total_risk_units * 10000 + pe - 1;
                assert(n >= 0);
                let u = n / pe;
                assert(crate::math::trunc_div(n, pe) == u);
                lemma_floor_mul_le(n, pe);
                let m = c.max_withdraw_utilization_bps as int;
                assert(u <= m);
                assert(s.total_risk_units * 10000 <= m * pe) by (nonlinear_arith)
                    requires n == s.total_risk_units * 10000 + pe - 1, n < u * pe + pe, u <= m, pe > 0;
            }
        }
    }
}

/// A deposit settles only on an unblocked snapshot whose cash equity, with
/// the deposit, covers the required risk backing.
pub proof fn law_deposit_settles_only_when_backed(c: LpConfig, s: AccountingSnapshot, supply: int, assets: int)
    ensures
        deposit_outcome(c, s, supply, assets) matches Ok(res) ==> (res.status == SettlementStatus::Settled
            ==> !blocked(s) && restores_capacity(s, assets)),
{
}

/// A settled deposit never dilutes existing holders: the shares minted are
/// worth at most the assets paid in at the pre-deposit price,
/// `shares * (nav + V_a) <= assets * (supply + V_s)`, so the price per share
/// after the deposit is at least the price before it.
pub proof fn law_deposit_no_dilution(c: LpConfig, s: AccountingSnapshot, supply: int, assets: int)
    ensures
        deposit_outcome(c, s, supply, assets) matches Ok(res) ==> (res.status == SettlementStatus::Settled ==> {
            &&& res.amount * (s.vault_nav + VIRTUAL_ASSETS) <= assets * (supply + VIRTUAL_SHARES)
            &&& (s.vault_nav + VIRTUAL_ASSETS + assets) * (supply + VIRTUAL_SHARES)
                >= (s.vault_nav + VIRTUAL_ASSETS) * (supply + VIRTUAL_SHARES + res.amount)
        }),
{
    if deposit_outcome(c, s, supply, assets) is Ok && deposit_admitted(c, s, supply, assets)
        && deposit_priceable(s, supply, assets) && deposit_shares(s, supply, assets) > 0 {
        let n = assets * (supply + VIRTUAL_SHARES);
        let d = s.vault_nav + VIRTUAL_ASSETS;
        let sh = deposit_shares(s, supply, assets);
        lemma_floor_mul_le(n, d);
        assert(sh * d <= n) by (nonlinear_arith)
            requires (n / d) * d <= n, sh == n / d;
        assert((d + assets) * (supply + VIRTUAL_SHARES) >= d * (supply + VIRTUAL_SHARES + sh)) by (nonlinear_arith)
            requires sh * d <= n, n == assets * (supply + VIRTUAL_SHARES);
    }
}

/// Larger deposits buy at least as many shares at the same snapshot.
pub proof fn law_deposit_shares_monotone(s: AccountingSnapshot, supply: int, a1: int, a2: int)
    requires
        0 <= a1 <= a2,
        supply + VIRTUAL_SHARES >= 0,
        s.vault_nav + VIRTUAL_ASSETS > 0,
    ensures
        deposit_shares(s, supply, a1) <= deposit_shares(s, supply, a2),
{
    let b = supply + VIRTUAL_SHARES;
    let d = s.vault_nav + VIRTUAL_ASSETS;
    assert(a1 * b <= a2 * b) by (nonlinear_arith) requires a1 <= a2, b >= 0;
    vstd::arithmetic::div_mod::lemma_div_is_ordered(a1 * b, a2 * b, d);
}

/// A settled withdrawal pays from free LP capital on an unblocked snapshot
/// and leaves utilization within the configured ceiling.
pub proof fn law_withdrawal_within_limits(c: LpConfig, s: AccountingSnapshot, supply: int, shares: int)
    ensures
        withdrawal_outcome(c, s, supply, shares) matches Ok(res) ==> (res.status == SettlementStatus::Settled ==> {
            &&& !blocked(s)
            &&& res.amount == withdrawal_assets(s, supply, shares)
            &&& res.amount <= s.free_lp_capital
            &&& post_utilization(s, res.amount as int) <= c.max_withdraw_utilization_bps
        }),
{
    if withdrawal_priceable(s, supply, shares) {
        lemma_withdrawal_assets_fit(s, supply, shares);
    }
}

/// A settled withdrawal of anything but the whole supply never pays more than
/// its pro-rata value: `assets * (supply + V_s) <= shares * (nav + V_a)`, so
/// the holders who stay are not diluted; paying out all cash equity is
/// reserved for the holder of the whole supply.
pub proof fn law_withdrawal_no_dilution(c: LpConfig, s: AccountingSnapshot, supply: int, shares: int)
    ensures
        withdrawal_outcome(c, s, supply, shares) matches Ok(res) ==> (res.status == SettlementStatus::Settled
            && shares != supply
            ==> res.amount * (supply + VIRTUAL_SHARES) <= shares * (s.vault_nav + VIRTUAL_ASSETS)),
{
    if withdrawal_outcome(c, s, supply, shares) is Ok && withdrawal_priceable(s, supply, shares)
        && shares != supply {
        assert(!full_exit(s, supply, shares));
        let n = shares * (s.vault_nav + VIRTUAL_ASSETS);
        let d = supply + VIRTUAL_SHARES;
        lemma_floor_mul_le(n, d);
        lemma_floor_within(n, d);
        assert((n / d) * d <= n);
    }
}

/// The last LP out with nothing open is paid all cash LP equity.
pub proof fn law_full_exit_takes_all_equity(c: LpConfig, s: AccountingSnapshot, supply: int, shares: int)
    ensures
        withdrawal_outcome(c, s, supply, shares) matches Ok(res) ==> (res.status == SettlementStatus::Settled
            && full_exit(s, supply, shares) ==> res.amount == s.cash_lp_equity),
{
}

/// Burning the whole supply while positions, risk or non-LP claims remain
/// never settles.
pub proof fn law_no_unsafe_empty(c: LpConfig, s: AccountingSnapshot, supply: int)
    requires
        s.open_position_count > 0 || s.total_risk_units > 0 || s.non_lp_claims > 0,
    ensures
        withdrawal_outcome(c, s, supply, supply) matches Ok(res) ==> res.status == SettlementStatus::Failed,
{
}

/// A failed withdrawal reports nothing paid.
pub proof fn law_withdrawal_failure_pays_nothing(c: LpConfig, s: AccountingSnapshot, supply: int, shares: int)
    ensures
        withdrawal_outcome(c, s, supply, shares) matches Ok(res) ==> (res.status == SettlementStatus::Failed
            ==> res.amount == 0),
{
}

/// A configuration written to storage is the one read back.
pub proof fn law_config_read_after_write(m: Map<Key, StorageValue>, c: LpConfig)
    ensures
        stored_config(m.insert(Key::LpConfig, StorageValue::Config(c))) == Some(c),
{
}

/// The pause flag written is the one read back: after a pause the vault is
/// paused, after an unpause it is not.
pub proof fn law_pause_read_after_write(m: Map<Key, StorageValue>, paused: bool)
    ensures
        stored_flag(m.insert(Key::Paused, StorageValue::Flag(paused)), Key::Paused) == Some(paused),
{
}

/// Once the request router is written, it is set: a second attempt to set it
/// is refused.
pub proof fn law_router_set_once(m: Map<Key, StorageValue>, router: Address)
    ensures
        stored_address(m.insert(Key::RequestRouter, StorageValue::Account(router)), Key::RequestRouter)
            == Some(router),
{
}

/// When the non-LP claims do not exceed custody, custody is exactly the LP
/// assets plus unclaimed fees plus any positive trader PnL.
pub proof fn law_custody_reconstruction(l: LpLedger)
    requires
        l.raw_assets - l.unclaimed_fees - pos_part(l.net_global_trader_pnl as int) >= 0,
    ensures
        lp_assets(l) + l.unclaimed_fees + pos_part(l.net_global_trader_pnl as int) == l.raw_assets,
{
}

/// Custody net of fees exceeds LP assets by exactly the positive trader PnL
/// when nothing is clamped.
pub proof fn law_excl_pnl_adds_back_pnl(l: LpLedger)
    requires
        l.raw_assets - l.unclaimed_fees - pos_part(l.net_global_trader_pnl as int) >= 0,
    ensures
        pos_part(l.raw_assets - l.unclaimed_fees) == lp_assets(l) + pos_part(l.net_global_trader_pnl as int),
{
}

/// Free liquidity is never negative and never more than the LP assets.
pub proof fn law_free_liquidity_bounds(l: LpLedger)
    requires
        l.reserved_usdc >= 0,
    ensures
        0 <= free_assets(l) <= lp_assets(l),
{
}

/// Custody net of fees does not move with the trader PnL: two ledgers that
/// differ only in their synced PnL agree on it.
pub proof fn law_excl_pnl_ignores_pnl(l: LpLedger, pnl: i128)
    ensures
        pos_part(l.raw_assets - l.unclaimed_fees)
            == pos_part(LpLedger { net_global_trader_pnl: pnl, ..l }.raw_assets
                - LpLedger { net_global_trader_pnl: pnl, ..l }.unclaimed_fees),
{
}

/// A trader-profit payout within the synced PnL is counted once: whether it
/// passes does not depend on its size, only on whether custody, net of
/// reserves and fees, covers the whole PnL liability.
pub proof fn law_payout_not_double_counted(l: LpLedger, amount: int)
    requires
        0 <= amount <= l.net_global_trader_pnl,
    ensures
        (amount <= payout_liquidity(l, amount))
            <==> (l.net_global_trader_pnl <= l.raw_assets - l.reserved_usdc - l.unclaimed_fees),
{
}

/// A payout at least as large as the synced PnL extinguishes all of that
/// liability: it passes exactly when custody, net of reserves and unclaimed
/// fees, covers it.
pub proof fn law_payout_beyond_pnl_deducts_nothing(l: LpLedger, amount: int)
    requires
        amount >= l.net_global_trader_pnl,
    ensures
        (amount <= payout_liquidity(l, amount))
            <==> (amount <= l.raw_assets - l.reserved_usdc - l.unclaimed_fees),
        payout_liquidity(l, amount) == l.raw_assets - l.reserved_usdc - l.unclaimed_fees,
{
}

/// A payout within the synced PnL leaves the rest of the liability deducted:
/// the liquidity it may draw on is custody less reserves, fees and
/// `pnl - amount`.
pub proof fn law_payout_within_pnl_deducts_remainder(l: LpLedger, amount: int)
    requires
        amount <= l.net_global_trader_pnl,
    ensures
        payout_liquidity(l, amount)
            == l.raw_assets - l.reserved_usdc - l.unclaimed_fees - (l.net_global_trader_pnl - amount),
{
}

/// The LP-exit freshness gate looks only at reserved liquidity and the two
/// timestamps: it refuses exactly when liquidity is reserved and the last
/// sync is more than the maximum age before `now`, whatever PnL was synced.
pub proof fn law_pnl_freshness_depends_only_on_time(l: LpLedger, now: u64, pnl: i128)
    ensures
        (l.reserved_usdc == 0 || !crate::logic::pnl_sync_stale(l, now))
            <==> (l.reserved_usdc == 0 || now <= l.last_pnl_sync || now - l.last_pnl_sync <= 900),
        crate::logic::pnl_sync_stale(l, now)
            == crate::logic::pnl_sync_stale(LpLedger { net_global_trader_pnl: pnl, ..l }, now),
{
}

/// Free liquidity is zero or accounts for all of custody together with the
/// reserves, unclaimed fees and positive trader PnL.
pub proof fn law_free_liquidity_accounts_for_custody(l: LpLedger)
    requires
        l.reserved_usdc >= 0,
    ensures
        free_assets(l) == 0
            || free_assets(l) + l.reserved_usdc + l.unclaimed_fees + pos_part(l.net_global_trader_pnl as int)
                == l.raw_assets,
        free_assets(l) >= 0,
        free_assets(l) <= pos_part(l.raw_assets - l.reserved_usdc - l.unclaimed_fees),
{
}

/// Converting assets to shares and back, rounding down both ways, never
/// yields more than was put in.
pub proof fn law_roundtrip_never_gains(l: LpLedger, assets: int)
    requires
        assets >= 0,
        share_basis(l) > 0,
    ensures
        floor_div(floor_div(assets * share_basis(l), asset_basis(l)) * asset_basis(l), share_basis(l)) <= assets,
{
    let s = share_basis(l);
    let a = asset_basis(l);
    assert(a >= 1);
    let sh = (assets * s) / a;
    lemma_floor_mul_le(assets * s, a);
    assert(sh * a <= assets * s);
    lemma_floor_mul_le(sh * a, s);
    let back = (sh * a) / s;
    assert(back * s <= sh * a);
    assert(back <= assets) by (nonlinear_arith)
        requires back * s <= sh * a, sh * a <= assets * s, s > 0;
}

/// When a share is worth at most one asset unit (`lp_assets + 1 <= supply +
/// 10^offset`), the round trip loses at most one unit.
pub proof fn law_roundtrip_loses_at_most_one(l: LpLedger, assets: int)
    requires
        assets >= 0,
        share_basis(l) > 0,
        asset_basis(l) <= share_basis(l),
    ensures
        floor_div(floor_div(assets * share_basis(l), asset_basis(l)) * asset_basis(l), share_basis(l)) >= assets - 1,
{
    let s = share_basis(l);
    let a = asset_basis(l);
    assert(a >= 1);
    let sh = (assets * s) / a;
    lemma_floor_mul_le(assets * s, a);
    assert(assets * s < sh * a + a);
    lemma_floor_mul_le(sh * a, s);
    let back = (sh * a) / s;
    assert(sh * a < back * s + s);
    assert(assets * s < back * s + s + a);
    assert(back >= assets - 1) by (nonlinear_arith)
        requires assets * s < back * s + s + a, a <= s, s > 0;
}

/// Splitting a redemption in two never pays more than redeeming at once.
pub proof fn law_split_redemption_never_gains(l: LpLedger, x: int, y: int)
    requires
        x >= 0,
        y >= 0,
        share_basis(l) > 0,
    ensures
        floor_div(x * asset_basis(l), share_basis(l)) + floor_div(y * asset_basis(l), share_basis(l))
            <= floor_div((x + y) * asset_basis(l), share_basis(l)),
{
    let s = share_basis(l);
    let a = asset_basis(l);
    lemma_floor_mul_le(x * a, s);
    lemma_floor_mul_le(y * a, s);
    lemma_floor_mul_le((x + y) * a, s);
    let qx = (x * a) / s;
    let qy = (y * a) / s;
    let q = ((x + y) * a) / s;
    assert((x + y) * a == x * a + y * a) by (nonlinear_arith);
    assert((qx + qy) * s <= (x + y) * a) by (nonlinear_arith)
        requires qx * s <= x * a, qy * s <= y * a, (x + y) * a == x * a + y * a;
    assert(qx + qy <= q) by (nonlinear_arith)
        requires (qx + qy) * s <= (x + y) * a, (x + y) * a < q * s + s, s > 0;
}

/// Redeeming at most the whole supply never pays more than the LP assets:
/// unclaimed fees and the trader-PnL backing are out of any LP's reach.
pub proof fn law_redemption_within_lp_assets(l: LpLedger, shares: int)
    requires
        0 <= shares <= l.total_supply,
        share_basis(l) > l.total_supply,
    ensures
        floor_div(shares * asset_basis(l), share_basis(l)) <= lp_assets(l),
{
    let s = share_basis(l);
    let a = asset_basis(l);
    lemma_floor_mul_le(shares * a, s);
    let q = (shares * a) / s;
    assert(q * s <= shares * a);
    assert(q <= lp_assets(l)) by (nonlinear_arith)
        requires q * s <= shares * a, shares < s, a == lp_assets(l) + 1, a >= 1, shares >= 0, s > 0;
}

/// After a lockup is recorded at `now` for `cooldown`, withdrawals by that
/// user are refused exactly until `now + cooldown`.
pub proof fn law_lockup_blocks_until_expiry(m: Map<Address, u64>, user: Address, now: u64, cooldown: u64, t: u64)
    requires
        now + cooldown <= u64::MAX,
    ensures
        ({
            let m2 = m.insert(user, (now + cooldown) as u64);
            (m2.contains_key(user) && t < m2[user]) <==> t < now + cooldown
        }),
{
}

/// A recipient that held no shares ends a transfer locked at least until the
/// sender's unexpired expiry, whatever its own earlier expiry was: moving
/// shares never sheds a running lockup.
pub proof fn law_transfer_never_sheds_lockup(m: Map<Address, u64>, from: Address, to: Address, to_pre_balance: i128, now: u64)
    requires
        to_pre_balance <= 0,
        expiry_or_zero(m, from) > now,
    ensures
        ({
            let m2 = if lockup_inherited(m, from, to, to_pre_balance, now) {
                m.insert(to, expiry_or_zero(m, from))
            } else {
                m
            };
            expiry_or_zero(m2, to) >= expiry_or_zero(m, from)
        }),
{
}

/// Recording a lockup overwrites the user's expiry with `now + cooldown`,
/// whatever it was, and leaves every other user's expiry as it was.
pub proof fn law_record_lockup_overwrites(m: Map<Address, u64>, user: Address, now: u64, cooldown: u64, other: Address)
    requires
        now + cooldown <= u64::MAX,
    ensures
        expiry_or_zero(m.insert(user, (now + cooldown) as u64), user) == now + cooldown,
        other != user ==> expiry_or_zero(m.insert(user, (now + cooldown) as u64), other) == expiry_or_zero(m, other),
{
}

/// Propagation on a share transfer only ever touches the recipient and never
/// shortens any lockup.
pub proof fn law_propagation_never_shortens(m: Map<Address, u64>, from: Address, to: Address, to_pre_balance: i128, now: u64, u: Address)
    ensures
        ({
            let m2 = if lockup_inherited(m, from, to, to_pre_balance, now) {
                m.insert(to, expiry_or_zero(m, from))
            } else {
                m
            };
            &&& expiry_or_zero(m2, u) >= expiry_or_zero(m, u)
            &&& u != to ==> expiry_or_zero(m2, u) == expiry_or_zero(m, u)
        }),
{
}

/// A recipient that already held shares keeps its own lockup: an unsolicited
/// transfer cannot extend it.
pub proof fn law_holder_lockup_not_extended(m: Map<Address, u64>, from: Address, to: Address, to_pre_balance: i128, now: u64)
    requires
        to_pre_balance > 0,
    ensures
        !lockup_inherited(m, from, to, to_pre_balance, now),
{
}

/// The test token's invariant: before initialization nothing is restricted
/// or booked, and every faucet total stays within the allowance.
pub open spec fn token_inv(v: MockTokenView) -> bool {
    &&& v.admin is None ==> !v.restrictions_active && v.public_minted == Map::<Address, i128>::empty()
    &&& faucet_within_cap(v)
}

/// Every faucet mint that is accepted keeps the token's invariant: no
/// address ever draws more than the allowance.
pub proof fn law_faucet_mint_within_cap(v: MockTokenView, to: Address, amount: int)
    requires
        token_inv(v),
        mint_allowed(v, to, amount),
    ensures
        token_inv(minted_state(v, to, amount)),
{
    if v.restrictions_active {
        let v2 = minted_state(v, to, amount);
        assert forall|a: Address| v2.public_minted.contains_key(a) implies #[trigger] v2.public_minted[a]
            <= crate::mock_token::mint_cap(v2.decimals) by {
            if a != to {
                assert(v.public_minted.contains_key(a));
            }
        }
    }
}

/// Marking protocol endpoints keeps the token's invariant.
pub proof fn law_protocol_updates_keep_invariant(v: MockTokenView, c: Address, allowed: bool, vault: Address, pm: Address)
    requires
        token_inv(v),
        v.admin is Some,
    ensures
        token_inv(protocol_set_state(v, c, allowed)),
        token_inv(configured_state(v, vault, pm)),
{
    assert forall|a: Address| protocol_set_state(v, c, allowed).public_minted.contains_key(a) implies
        #[trigger] protocol_set_state(v, c, allowed).public_minted[a]
            <= crate::mock_token::mint_cap(protocol_set_state(v, c, allowed).decimals) by {
        assert(v.public_minted.contains_key(a));
    }
    assert forall|a: Address| configured_state(v, vault, pm).public_minted.contains_key(a) implies
        #[trigger] configured_state(v, vault, pm).public_minted[a]
            <= crate::mock_token::mint_cap(configured_state(v, vault, pm).decimals) by {
        assert(v.public_minted.contains_key(a));
    }
}

/// With restrictions active, an accepted faucet mint books exactly the
/// amount against the recipient and leaves its total within
/// `5000 * 10^decimals`; without restrictions every mint is accepted and
/// nothing is booked.
pub proof fn law_faucet_books_exactly_within_cap(v: MockTokenView, to: Address, amount: int)
    ensures
        v.restrictions_active && mint_allowed(v, to, amount) ==> {
            &&& minted_by(minted_state(v, to, amount), to) == minted_by(v, to) + amount
            &&& minted_by(minted_state(v, to, amount), to) <= 5000 * crate::math::pow10_spec(v.decimals as nat)
        },
        !v.restrictions_active ==> mint_allowed(v, to, amount) && minted_state(v, to, amount) == v,
{
}

/// A faucet total never goes down.
pub proof fn law_faucet_totals_never_decrease(v: MockTokenView, to: Address, amount: int, a: Address)
    requires
        amount >= 0,
        mint_allowed(v, to, amount),
    ensures
        minted_by(minted_state(v, to, amount), a) >= minted_by(v, a),
{
}

} // verus!
