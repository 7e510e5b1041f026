use vstd::prelude::*;

use crate::errors::VaultError;
use crate::address_map::LockupBook;
use crate::math::{fits_i128, fixed_point_mul_div, max_zero, pos_part, pow10, pow10_spec, rounded_div, Rounding};
use crate::storage::{stored_address, stored_flag, InstanceStorage, Key};
use crate::types::{Address, Lockup};
use soroban_sdk::Env;

verus! {

/// Maximum age of the synced net trader PnL accepted on the LP exit path
/// while positions are open.
pub const PNL_SYNC_MAX_AGE_SECS: u64 = 900;

/// The counters the LP share price is computed from.
#[derive(Clone, Copy, Debug, PartialEq, Eq, Structural)]
pub struct LpLedger {
    /// Asset tokens held by the vault.
    pub raw_assets: i128,
    /// Liquidity reserved to back open positions.
    pub reserved_usdc: i128,
    /// Fee revenue booked for developers and stakers, awaiting claim.
    pub unclaimed_fees: i128,
    /// Net unrealized trader PnL last synced from the position manager.
    pub net_global_trader_pnl: i128,
    /// Ledger time of that sync.
    pub last_pnl_sync: u64,
    /// Outstanding LP shares.
    pub total_supply: i128,
    /// Decimals offset of the virtual shares, `10^offset`.
    pub decimals_offset: u32,
}

/// Assets owned by LP shareholders: custody minus unclaimed fees and any
/// positive trader PnL, floored at zero.
pub open spec fn lp_assets(l: LpLedger) -> int {
    pos_part(l.raw_assets - l.unclaimed_fees - pos_part(l.net_global_trader_pnl as int))
}

/// `lp_assets` can be computed without overflow.
pub open spec fn lp_assets_defined(l: LpLedger) -> bool {
    &&& fits_i128(l.raw_assets - l.unclaimed_fees)
    &&& fits_i128(l.raw_assets - l.unclaimed_fees - pos_part(l.net_global_trader_pnl as int))
}

/// LP assets net of reserved capital, floored at zero.
pub open spec fn free_assets(l: LpLedger) -> int {
    pos_part(lp_assets(l) - l.reserved_usdc)
}

/// The virtual share count `10^offset`.
pub open spec fn virtual_share_count(l: LpLedger) -> int {
    pow10_spec(l.decimals_offset as nat)
}

/// The share side of the price: supply plus virtual shares.
pub open spec fn share_basis(l: LpLedger) -> int {
    l.total_supply + virtual_share_count(l)
}

/// The asset side of the price: LP assets plus one.
pub open spec fn asset_basis(l: LpLedger) -> int {
    lp_assets(l) + 1
}

/// Both sides of the price can be computed without overflow.
pub open spec fn basis_defined(l: LpLedger) -> bool {
    &&& lp_assets_defined(l)
    &&& l.decimals_offset <= 38
    &&& fits_i128(share_basis(l))
    &&& fits_i128(asset_basis(l))
}

/// Assets owned by LP shareholders: custody minus unclaimed fees and, when
/// positive, the synced trader PnL; never negative.
pub fn lp_total_assets(l: &LpLedger) -> (r: i128)
    requires
        lp_assets_defined(*l),
    ensures
        r == lp_assets(*l),
{
    let pnl = max_zero(l.net_global_trader_pnl);
    max_zero(l.raw_assets - l.unclaimed_fees - pnl)
}

/// Free liquidity: LP assets net of reserved capital, floored at zero.
pub fn free_liquidity(l: &LpLedger) -> (r: i128)
    requires
        lp_assets_defined(*l),
        fits_i128(lp_assets(*l) - l.reserved_usdc),
    ensures
        r == free_assets(*l),
{
    max_zero(lp_total_assets(l) - l.reserved_usdc)
}

/// Custody net of unclaimed fees only, floored at zero; trader PnL is left in.
pub fn total_assets_excl_pnl(l: &LpLedger) -> (r: i128)
    requires
        fits_i128(l.raw_assets - l.unclaimed_fees),
    ensures
        r == pos_part(l.raw_assets - l.unclaimed_fees),
{
    let v = l.raw_assets - l.unclaimed_fees;
    if v < 0 {
        0
    } else {
        v
    }
}

/// `InsufficientFreeLiquidity` when `amount` exceeds the free liquidity.
pub fn require_free_liquidity(l: &LpLedger, amount: i128) -> (r: Result<(), VaultError>)
    requires
        lp_assets_defined(*l),
        fits_i128(lp_assets(*l) - l.reserved_usdc),
    ensures
        r is Ok <==> amount <= free_assets(*l),
        r matches Err(e) ==> e == VaultError::InsufficientFreeLiquidity,
{
    if amount > free_liquidity(l) {
        Err(VaultError::InsufficientFreeLiquidity)
    } else {
        Ok(())
    }
}

/// The liquidity a trader-profit payout of `amount` may draw on: custody less
/// reserved capital, unclaimed fees, and the PnL liability that remains once
/// the payout extinguishes `amount` of it.
pub open spec fn payout_liquidity(l: LpLedger, amount: int) -> int {
    l.raw_assets - l.reserved_usdc - l.unclaimed_fees - pos_part(l.net_global_trader_pnl - amount)
}

/// `payout_liquidity` can be computed without overflow.
pub open spec fn payout_liquidity_defined(l: LpLedger, amount: int) -> bool {
    &&& fits_i128(l.net_global_trader_pnl - amount)
    &&& fits_i128(l.raw_assets - l.reserved_usdc)
    &&& fits_i128(l.raw_assets - l.reserved_usdc - l.unclaimed_fees)
    &&& fits_i128(payout_liquidity(l, amount))
}

/// `InsufficientFreeLiquidity` when a trader-profit payout of `amount`
/// exceeds `payout_liquidity`.
pub fn require_payout_liquidity(l: &LpLedger, amount: i128) -> (r: Result<(), VaultError>)
    requires
        payout_liquidity_defined(*l, amount as int),
    ensures
        r is Ok <==> amount <= payout_liquidity(*l, amount as int),
        r matches Err(e) ==> e == VaultError::InsufficientFreeLiquidity,
{
    let pnl_deduction = max_zero(l.net_global_trader_pnl - amount);
    let free = l.raw_assets - l.reserved_usdc - l.unclaimed_fees - pnl_deduction;
    if amount > free {
        Err(VaultError::InsufficientFreeLiquidity)
    } else {
        Ok(())
    }
}

/// The two virtual-offset terms of both share conversions:
/// `(supply + 10^offset, lp_assets + 1)`.
pub fn lp_share_basis(l: &LpLedger) -> (r: (i128, i128))
    requires
        basis_defined(*l),
    ensures
        r.0 == share_basis(*l),
        r.1 == asset_basis(*l),
{
    let virtual_shares = pow10(l.decimals_offset);
    let supply = l.total_supply + virtual_shares;
    let lp = lp_total_assets(l) + 1;
    (supply, lp)
}

/// Shares for `assets` against the LP basis:
/// `assets * (supply + 10^offset) / (lp_assets + 1)`, rounded as asked;
/// `ZeroAmount` for negative assets, `0` for none.
pub fn assets_to_shares(env: &Env, l: &LpLedger, assets: i128, rounding: Rounding) -> (r: Result<i128, VaultError>)
    requires
        basis_defined(*l),
        assets > 0 ==> fits_i128(rounded_div(assets * share_basis(*l), asset_basis(*l), rounding)),
    ensures
        assets < 0 ==> r == Err::<i128, VaultError>(VaultError::ZeroAmount),
        assets == 0 ==> r == Ok::<i128, VaultError>(0),
        assets > 0 ==> r == Ok::<i128, VaultError>(
            rounded_div(assets * share_basis(*l), asset_basis(*l), rounding) as i128),
{
    if assets < 0 {
        return Err(VaultError::ZeroAmount);
    }
    if assets == 0 {
        return Ok(0);
    }
    let (supply, lp_assets) = lp_share_basis(l);
    Ok(fixed_point_mul_div(env, assets, supply, lp_assets, rounding))
}

/// Assets for `shares` against the LP basis:
/// `shares * (lp_assets + 1) / (supply + 10^offset)`, rounded as asked;
/// `ZeroAmount` for negative shares, `0` for none.
pub fn shares_to_assets(env: &Env, l: &LpLedger, shares: i128, rounding: Rounding) -> (r: Result<i128, VaultError>)
    requires
        basis_defined(*l),
        shares > 0 ==> share_basis(*l) != 0,
        shares > 0 ==> fits_i128(rounded_div(shares * asset_basis(*l), share_basis(*l), rounding)),
    ensures
        shares < 0 ==> r == Err::<i128, VaultError>(VaultError::ZeroAmount),
        shares == 0 ==> r == Ok::<i128, VaultError>(0),
        shares > 0 ==> r == Ok::<i128, VaultError>(
            rounded_div(shares * asset_basis(*l), share_basis(*l), rounding) as i128),
{
    if shares < 0 {
        return Err(VaultError::ZeroAmount);
    }
    if shares == 0 {
        return Ok(0);
    }
    let (supply, lp_assets) = lp_share_basis(l);
    Ok(fixed_point_mul_div(env, shares, lp_assets, supply, rounding))
}

/// `now - last` floored at zero exceeds the maximum sync age.
pub open spec fn pnl_sync_stale(l: LpLedger, now: u64) -> bool {
    now > l.last_pnl_sync && now - l.last_pnl_sync > PNL_SYNC_MAX_AGE_SECS
}

/// `StalePnlSync` when positions are open (reserved liquidity) and the last
/// PnL sync is older than the maximum age; an idle vault never blocks.
pub fn require_fresh_pnl_sync(l: &LpLedger, now: u64) -> (r: Result<(), VaultError>)
    ensures
        r is Ok <==> (l.reserved_usdc == 0 || !pnl_sync_stale(*l, now)),
        r matches Err(e) ==> e == VaultError::StalePnlSync,
{
    if l.reserved_usdc == 0 {
        return Ok(());
    }
    let age = now.saturating_sub(l.last_pnl_sync);
    if age > PNL_SYNC_MAX_AGE_SECS {
        Err(VaultError::StalePnlSync)
    } else {
        Ok(())
    }
}

/// `NotInitialized` unless the vault has been initialized.
pub fn require_initialized(storage: &InstanceStorage) -> (r: Result<(), VaultError>)
    ensures
        r is Ok <==> stored_flag(storage@, Key::Initialized) == Some(true),
        r matches Err(e) ==> e == VaultError::NotInitialized,
{
    if storage.get_flag(&Key::Initialized) == Some(true) {
        Ok(())
    } else {
        Err(VaultError::NotInitialized)
    }
}

/// `Paused` while the vault is paused.
pub fn require_not_paused(storage: &InstanceStorage) -> (r: Result<(), VaultError>)
    ensures
        r is Ok <==> stored_flag(storage@, Key::Paused) != Some(true),
        r matches Err(e) ==> e == VaultError::Paused,
{
    if storage.get_flag(&Key::Paused) == Some(true) {
        Err(VaultError::Paused)
    } else {
        Ok(())
    }
}

/// Answers a role check: `Unauthorized` unless the caller holds the role.
fn require_role_or_panic(caller_has_role: bool) -> (r: Result<(), VaultError>)
    ensures
        r is Ok <==> caller_has_role,
        r matches Err(e) ==> e == VaultError::Unauthorized,
{
    if caller_has_role {
        Ok(())
    } else {
        Err(VaultError::Unauthorized)
    }
}

/// `Unauthorized` unless the caller holds the pauser role.
pub fn require_pauser(caller_is_pauser: bool) -> (r: Result<(), VaultError>)
    ensures
        r is Ok <==> caller_is_pauser,
        r matches Err(e) ==> e == VaultError::Unauthorized,
{
    require_role_or_panic(caller_is_pauser)
}

/// `Unauthorized` unless the caller holds the admin role.
pub fn require_admin(caller_is_admin: bool) -> (r: Result<(), VaultError>)
    ensures
        r is Ok <==> caller_is_admin,
        r matches Err(e) ==> e == VaultError::Unauthorized,
{
    require_role_or_panic(caller_is_admin)
}

/// `Unauthorized` unless the caller holds the upgrader role.
pub fn require_upgrader(caller_is_upgrader: bool) -> (r: Result<(), VaultError>)
    ensures
        r is Ok <==> caller_is_upgrader,
        r matches Err(e) ==> e == VaultError::Unauthorized,
{
    require_role_or_panic(caller_is_upgrader)
}

/// `NotPositionManager` unless the caller is the stored position manager.
pub fn require_position_manager(storage: &InstanceStorage, caller: &Address) -> (r: Result<(), VaultError>)
    requires
        stored_address(storage@, Key::PositionManager) is Some,
    ensures
        r is Ok <==> stored_address(storage@, Key::PositionManager) == Some(*caller),
        r matches Err(e) ==> e == VaultError::NotPositionManager,
{
    if *caller != storage.position_manager() {
        Err(VaultError::NotPositionManager)
    } else {
        Ok(())
    }
}

/// Sets `user`'s lockup to expire at `now + cooldown_duration` and returns
/// the event announcing it.
pub fn record_lockup(book: &mut LockupBook, user: &Address, now: u64, cooldown_duration: u64) -> (r: Lockup)
    requires
        old(book).wf(),
        now + cooldown_duration <= u64::MAX,
    ensures
        final(book).wf(),
        final(book)@ == old(book)@.insert(*user, (now + cooldown_duration) as u64),
        r == (Lockup { user: *user, expires_at: (now + cooldown_duration) as u64 }),
{
    let expires_at = now + cooldown_duration;
    book.insert(user, expires_at);
    Lockup { user: *user, expires_at }
}

/// `CooldownNotElapsed` while `now` is before `user`'s stored expiry; users
/// without one pass.
pub fn require_lockup_elapsed(book: &LockupBook, user: &Address, now: u64) -> (r: Result<(), VaultError>)
    requires
        book.wf(),
    ensures
        r is Ok <==> !(book@.contains_key(*user) && now < book@[*user]),
        r matches Err(e) ==> e == VaultError::CooldownNotElapsed,
{
    match book.get(user) {
        Some(expiry) => if now < expiry {
            Err(VaultError::CooldownNotElapsed)
        } else {
            Ok(())
        },
        None => Ok(()),
    }
}

/// The stored expiry of `user`, or `0` without one.
pub open spec fn expiry_or_zero(m: Map<Address, u64>, user: Address) -> u64 {
    if m.contains_key(user) {
        m[user]
    } else {
        0
    }
}

/// `user`'s lockup expiry, `0` for a user who never had one.
pub fn lockup_expires_at(book: &LockupBook, user: &Address) -> (r: u64)
    requires
        book.wf(),
    ensures
        r == expiry_or_zero(book@, *user),
{
    match book.get(user) {
        Some(e) => e,
        None => 0,
    }
}

/// `to` inherits `from`'s lockup on a share transfer.
pub open spec fn lockup_inherited(m: Map<Address, u64>, from: Address, to: Address, to_pre_balance: i128, now: u64) -> bool {
    &&& to_pre_balance <= 0
    &&& expiry_or_zero(m, from) != 0
    &&& expiry_or_zero(m, from) > now
    &&& expiry_or_zero(m, from) > expiry_or_zero(m, to)
}

/// On a share transfer, `to` inherits `from`'s unexpired lockup when `to`
/// held no shares before and the inherited expiry is later than its own; the
/// new lockup's event is returned when one is set.
pub fn propagate_lockup_on_transfer(book: &mut LockupBook, from: &Address, to: &Address, to_pre_balance: i128, now: u64) -> (r: Option<Lockup>)
    requires
        old(book).wf(),
    ensures
        final(book).wf(),
        lockup_inherited(old(book)@, *from, *to, to_pre_balance, now) ==> {
            &&& final(book)@ == old(book)@.insert(*to, expiry_or_zero(old(book)@, *from))
            &&& r == Some(Lockup { user: *to, expires_at: expiry_or_zero(old(book)@, *from) })
        },
        !lockup_inherited(old(book)@, *from, *to, to_pre_balance, now) ==> {
            &&& final(book)@ == old(book)@
            &&& r is None
        },
{
    if to_pre_balance > 0 {
        return None;
    }
    let from_expiry = match book.get(from) {
        Some(e) => e,
        None => 0,
    };
    if from_expiry == 0 {
        return None;
    }
    if from_expiry <= now {
        return None;
    }
    let to_expiry = match book.get(to) {
        Some(e) => e,
        None => 0,
    };
    if from_expiry > to_expiry {
        book.insert(to, from_expiry);
        return Some(Lockup { user: *to, expires_at: from_expiry });
    }
    None
}

} // verus!
