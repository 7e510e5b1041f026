[package]
name = "wintrader_vault"
version = "0.1.0"
edition = "2021"
publish = false

[dependencies]
soroban-sdk = { version = "=28.0.0", features = ["hazmat-address"] }
stellar-contract-utils = "=0.8.0"
stellar-tokens = "=0.8.0"

[dev-dependencies]
proptest = "=1.12.0"
soroban-sdk = { version = "=28.0.0", features = ["testutils", "hazmat-address"] }
