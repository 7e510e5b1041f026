# wintrader_vault

The LP vault of a perpetual DEX on Soroban, with its decision logic verified
in Verus.

- `src/` is the verified library:
  - `contract.rs`: the vault's entry points as decisions over its instance
    storage and the position manager's accounting snapshot: configuration
    checks, role and caller gates, claim payouts, and the two halves of
    deposit and withdrawal settlement.
  - `logic.rs`: the LP basis (LP-owned assets, free liquidity, share
    conversions with virtual offset), payout and freshness gates, lockups.
  - `upgrade.rs`: the timelock guarding code upgrades (propose, cancel,
    execute) and the error each upgrade failure is answered with.
  - `mock_token.rs`: the test token's faucet allowance and transfer
    restrictions.
  - `storage.rs`, `address_map.rs`, `types.rs`, `errors.rs`, `math.rs`:
    instance storage, address-keyed maps, shared types, errors, and checked
    fixed-point arithmetic.
  - `laws.rs`: properties that span calls (no dilution on settlement,
    redemptions never reach fees or PnL backing, lockups never shortened,
    faucet allowance respected).
- `app/` holds the Soroban contracts that load storage, call the library, and
  perform token transfers, mints, burns and cross-contract calls.
- `tests/` exercises the library on concrete scenarios and sampled inputs.
