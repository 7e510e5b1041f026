use vstd::prelude::*;

use crate::address_map::AddressMap;
use crate::math::{fits_i128, pow10, pow10_spec};
use crate::types::Address;

verus! {

/// Cumulative faucet allowance per address, in whole tokens.
pub const PUBLIC_MINT_CAP_USD: i128 = 5_000;

/// Errors the test token answers a refused call with.
#[derive(Clone, Copy, Debug, PartialEq, Eq, Structural)]
pub enum MockTokenError {
    AlreadyInitialized,
    Unauthorized,
    MintCapExceeded,
    TransferRestricted,
}

/// The test token's own state; balances are kept by the fungible-token base.
#[derive(Debug)]
pub struct MockToken {
    admin: Option<Address>,
    restrictions_active: Option<bool>,
    protocol_contracts: AddressMap<bool>,
    public_minted: AddressMap<i128>,
    decimals: u32,
}

/// The abstract state of the test token.
pub struct MockTokenView {
    pub admin: Option<Address>,
    pub restrictions_active: bool,
    pub protocol_contracts: Map<Address, bool>,
    pub public_minted: Map<Address, i128>,
    pub decimals: u32,
}

/// The faucet allowance per address: `5000 * 10^decimals`.
pub open spec fn mint_cap(decimals: u32) -> int {
    PUBLIC_MINT_CAP_USD * pow10_spec(decimals as nat)
}

/// The faucet allowance can be computed without overflow.
pub open spec fn cap_defined(decimals: u32) -> bool {
    decimals <= 38 && fits_i128(mint_cap(decimals))
}

/// Whether `a` may take part in transfers once restrictions are active.
pub open spec fn is_protocol(v: MockTokenView, a: Address) -> bool {
    v.protocol_contracts.contains_key(a) && v.protocol_contracts[a]
}

/// What `a` has drawn from the faucet.
pub open spec fn minted_by(v: MockTokenView, a: Address) -> int {
    if v.public_minted.contains_key(a) {
        v.public_minted[a] as int
    } else {
        0
    }
}

/// A transfer from `from` to `to` is allowed.
pub open spec fn transfer_allowed(v: MockTokenView, from: Address, to: Address) -> bool {
    !v.restrictions_active || is_protocol(v, from) || is_protocol(v, to)
}

/// The caller is the stored admin.
pub open spec fn is_admin(v: MockTokenView, caller: Address) -> bool {
    v.admin == Some(caller)
}

/// The state after a successful faucet mint of `amount` to `to`.
pub open spec fn minted_state(v: MockTokenView, to: Address, amount: int) -> MockTokenView {
    if v.restrictions_active {
        MockTokenView { public_minted: v.public_minted.insert(to, (minted_by(v, to) + amount) as i128), ..v }
    } else {
        v
    }
}

/// A faucet mint of `amount` to `to` is accepted.
pub open spec fn mint_allowed(v: MockTokenView, to: Address, amount: int) -> bool {
    !v.restrictions_active || {
        &&& fits_i128(minted_by(v, to) + amount)
        &&& minted_by(v, to) + amount <= mint_cap(v.decimals)
    }
}

/// The state after marking `c` allowed or not, with restrictions active.
pub open spec fn protocol_set_state(v: MockTokenView, c: Address, allowed: bool) -> MockTokenView {
    MockTokenView { protocol_contracts: v.protocol_contracts.insert(c, allowed), restrictions_active: true, ..v }
}

/// The state after the vault and position manager are marked, with restrictions active.
pub open spec fn configured_state(v: MockTokenView, vault: Address, position_manager: Address) -> MockTokenView {
    MockTokenView {
        protocol_contracts: v.protocol_contracts.insert(vault, true).insert(position_manager, true),
        restrictions_active: true,
        ..v
    }
}

/// Every address's faucet total is within the allowance.
pub open spec fn faucet_within_cap(v: MockTokenView) -> bool {
    forall|a: Address| v.public_minted.contains_key(a) ==> #[trigger] v.public_minted[a] <= mint_cap(v.decimals)
}

impl MockToken {
    pub closed spec fn view(&self) -> MockTokenView {
        MockTokenView {
            admin: self.admin,
            restrictions_active: self.restrictions_active == Some(true),
            protocol_contracts: self.protocol_contracts@,
            public_minted: self.public_minted@,
            decimals: self.decimals,
        }
    }

    pub closed spec fn wf(&self) -> bool {
        self.protocol_contracts.wf() && self.public_minted.wf()
    }

    /// A token that has not been initialized.
    pub fn new() -> (t: Self)
        ensures
            t.wf(),
            t.view().admin is None,
            !t.view().restrictions_active,
            t.view().protocol_contracts == Map::<Address, bool>::empty(),
            t.view().public_minted == Map::<Address, i128>::empty(),
            t.view().decimals == 0,
    {
        MockToken {
            admin: None,
            restrictions_active: None,
            protocol_contracts: AddressMap::new(),
            public_minted: AddressMap::new(),
            decimals: 0,
        }
    }

    /// A token state rebuilt from stored settings, with no per-address entries.
    pub fn with_settings(admin: Option<Address>, restrictions_active: Option<bool>, decimals: u32) -> (t: Self)
        ensures
            t.wf(),
            t.view().admin == admin,
            t.view().restrictions_active == (restrictions_active == Some(true)),
            t.view().decimals == decimals,
            t.view().protocol_contracts == Map::<Address, bool>::empty(),
            t.view().public_minted == Map::<Address, i128>::empty(),
    {
        MockToken {
            admin,
            restrictions_active,
            protocol_contracts: AddressMap::new(),
            public_minted: AddressMap::new(),
            decimals,
        }
    }

    /// Stores whether `contract` is a protocol endpoint, with no other change.
    pub fn mark_protocol_contract(&mut self, contract: &Address, allowed: bool)
        requires
            old(self).wf(),
        ensures
            final(self).wf(),
            final(self).view() == (MockTokenView {
                protocol_contracts: old(self).view().protocol_contracts.insert(*contract, allowed),
                ..old(self).view()
            }),
    {
        self.protocol_contracts.insert(contract, allowed);
    }

    /// Stores `account`'s faucet total, with no other change.
    pub fn set_public_minted(&mut self, account: &Address, amount: i128)
        requires
            old(self).wf(),
        ensures
            final(self).wf(),
            final(self).view() == (MockTokenView {
                public_minted: old(self).view().public_minted.insert(*account, amount),
                ..old(self).view()
            }),
    {
        self.public_minted.insert(account, amount);
    }

    /// Records the admin and decimals, restrictions off:
    /// `AlreadyInitialized` once an admin is set.
    pub fn initialize(&mut self, admin: Address, decimals: u32) -> (r: Result<(), MockTokenError>)
        requires
            old(self).wf(),
        ensures
            final(self).wf(),
            r is Ok <==> old(self).view().admin is None,
            r matches Err(e) ==> e == MockTokenError::AlreadyInitialized && final(self).view() == old(self).view(),
            r is Ok ==> final(self).view() == (MockTokenView {
                admin: Some(admin),
                restrictions_active: false,
                decimals,
                ..old(self).view()
            }),
    {
        if self.admin.is_some() {
            return Err(MockTokenError::AlreadyInitialized);
        }
        self.admin = Some(admin);
        self.restrictions_active = Some(false);
        self.decimals = decimals;
        Ok(())
    }

    /// Whether transfers are restricted to protocol endpoints.
    pub fn restrictions_active(&self) -> (r: bool)
        ensures
            r == self.view().restrictions_active,
    {
        match self.restrictions_active {
            Some(b) => b,
            None => false,
        }
    }

    /// Whether `contract` is a protocol endpoint.
    pub fn is_protocol_contract(&self, contract: &Address) -> (r: bool)
        requires
            self.wf(),
        ensures
            r == is_protocol(self.view(), *contract),
    {
        match self.protocol_contracts.get(contract) {
            Some(b) => b,
            None => false,
        }
    }

    /// What `account` has drawn from the faucet.
    pub fn public_minted(&self, account: &Address) -> (r: i128)
        requires
            self.wf(),
        ensures
            r == minted_by(self.view(), *account),
    {
        match self.public_minted.get(account) {
            Some(v) => v,
            None => 0,
        }
    }

    /// The faucet allowance per address, `5000 * 10^decimals`.
    pub fn public_mint_cap(&self) -> (r: i128)
        requires
            cap_defined(self.view().decimals),
        ensures
            r == mint_cap(self.view().decimals),
    {
        PUBLIC_MINT_CAP_USD * pow10(self.decimals)
    }

    /// `Unauthorized` unless `admin` is the stored admin.
    pub fn require_admin(&self, admin: &Address) -> (r: Result<(), MockTokenError>)
        ensures
            r is Ok <==> is_admin(self.view(), *admin),
            r matches Err(e) ==> e == MockTokenError::Unauthorized,
    {
        match self.admin {
            None => Err(MockTokenError::Unauthorized),
            Some(stored) => if stored != *admin {
                Err(MockTokenError::Unauthorized)
            } else {
                Ok(())
            },
        }
    }

    /// Books `amount` against `account`'s faucet allowance:
    /// `MintCapExceeded` when the total overflows or exceeds the allowance.
    fn add_public_mint(&mut self, account: &Address, amount: i128) -> (r: Result<(), MockTokenError>)
        requires
            old(self).wf(),
            cap_defined(old(self).view().decimals),
        ensures
            final(self).wf(),
            r is Ok <==> (fits_i128(minted_by(old(self).view(), *account) + amount)
                && minted_by(old(self).view(), *account) + amount <= mint_cap(old(self).view().decimals)),
            r matches Err(e) ==> e == MockTokenError::MintCapExceeded && final(self).view() == old(self).view(),
            r is Ok ==> final(self).view() == (MockTokenView {
                public_minted: old(self).view().public_minted.insert(
                    *account, (minted_by(old(self).view(), *account) + amount) as i128),
                ..old(self).view()
            }),
    {
        let minted = self.public_minted(account);
        let new_minted = match minted.checked_add(amount) {
            Some(v) => v,
            None => return Err(MockTokenError::MintCapExceeded),
        };
        if new_minted > self.public_mint_cap() {
            return Err(MockTokenError::MintCapExceeded);
        }
        self.set_public_minted(account, new_minted);
        Ok(())
    }

    /// The faucet: once restrictions are active, each address may draw at
    /// most the allowance in total (`MintCapExceeded` beyond it); before
    /// that, minting is unrestricted and nothing is booked.
    pub fn mint(&mut self, to: &Address, amount: i128) -> (r: Result<(), MockTokenError>)
        requires
            old(self).wf(),
            old(self).view().restrictions_active ==> cap_defined(old(self).view().decimals),
        ensures
            final(self).wf(),
            r is Ok <==> mint_allowed(old(self).view(), *to, amount as int),
            r matches Err(e) ==> e == MockTokenError::MintCapExceeded && final(self).view() == old(self).view(),
            r is Ok ==> final(self).view() == minted_state(old(self).view(), *to, amount as int),
    {
        if self.restrictions_active() {
            self.add_public_mint(to, amount)
        } else {
            Ok(())
        }
    }

    /// Admin seeding, outside the faucet allowance: `Unauthorized` unless the
    /// admin calls; nothing is booked.
    pub fn admin_mint(&self, admin: &Address) -> (r: Result<(), MockTokenError>)
        ensures
            r is Ok <==> is_admin(self.view(), *admin),
            r matches Err(e) ==> e == MockTokenError::Unauthorized,
    {
        self.require_admin(admin)
    }

    /// Marks `contract` allowed or not and activates restrictions:
    /// `Unauthorized` unless the admin calls.
    pub fn set_protocol_contract(&mut self, admin: &Address, contract: &Address, allowed: bool) -> (r: Result<(), MockTokenError>)
        requires
            old(self).wf(),
        ensures
            final(self).wf(),
            r is Ok <==> is_admin(old(self).view(), *admin),
            r matches Err(e) ==> e == MockTokenError::Unauthorized && final(self).view() == old(self).view(),
            r is Ok ==> final(self).view() == protocol_set_state(old(self).view(), *contract, allowed),
    {
        self.require_admin(admin)?;
        self.mark_protocol_contract(contract, allowed);
        self.restrictions_active = Some(true);
        Ok(())
    }

    /// Marks the vault and the position manager as protocol endpoints and
    /// activates restrictions: `Unauthorized` unless the admin calls.
    pub fn configure_protocol(&mut self, admin: &Address, vault: &Address, position_manager: &Address) -> (r: Result<(), MockTokenError>)
        requires
            old(self).wf(),
        ensures
            final(self).wf(),
            r is Ok <==> is_admin(old(self).view(), *admin),
            r matches Err(e) ==> e == MockTokenError::Unauthorized && final(self).view() == old(self).view(),
            r is Ok ==> final(self).view() == configured_state(old(self).view(), *vault, *position_manager),
    {
        self.require_admin(admin)?;
        self.mark_protocol_contract(vault, true);
        self.mark_protocol_contract(position_manager, true);
        self.restrictions_active = Some(true);
        Ok(())
    }

    /// `TransferRestricted` when restrictions are active and neither
    /// endpoint is a protocol contract.
    pub fn require_protocol_endpoint(&self, from: &Address, to: &Address) -> (r: Result<(), MockTokenError>)
        requires
            self.wf(),
        ensures
            r is Ok <==> transfer_allowed(self.view(), *from, *to),
            r matches Err(e) ==> e == MockTokenError::TransferRestricted,
    {
        if !self.restrictions_active() {
            return Ok(());
        }
        if self.is_protocol_contract(from) || self.is_protocol_contract(to) {
            return Ok(());
        }
        Err(MockTokenError::TransferRestricted)
    }

    /// Admits a transfer from `from` to `to`.
    pub fn transfer(&self, from: &Address, to: &Address) -> (r: Result<(), MockTokenError>)
        requires
            self.wf(),
        ensures
            r is Ok <==> transfer_allowed(self.view(), *from, *to),
            r matches Err(e) ==> e == MockTokenError::TransferRestricted,
    {
        self.require_protocol_endpoint(from, to)
    }

    /// Admits a delegated transfer from `from` to `to`.
    pub fn transfer_from(&self, from: &Address, to: &Address) -> (r: Result<(), MockTokenError>)
        requires
            self.wf(),
        ensures
            r is Ok <==> transfer_allowed(self.view(), *from, *to),
            r matches Err(e) ==> e == MockTokenError::TransferRestricted,
    {
        self.require_protocol_endpoint(from, to)
    }
}

} // verus!
