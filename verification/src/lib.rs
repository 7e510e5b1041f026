//! Verified core of the LP vault of a perpetual DEX: share pricing against the
//! LP basis, settlement decisions for queued deposits and withdrawals, payout
//! gates, lockups, and the test token's faucet rules.

pub mod contract;
pub mod errors;
pub mod laws;
pub mod address_map;
pub mod logic;
pub mod math;
pub mod mock_token;
pub mod storage;
pub mod types;
pub mod upgrade;
