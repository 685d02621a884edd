[package]
name = "gas_station"
version = "0.1.0"
edition = "2021"
publish = false

[dependencies]
ethers-core = "=2.0.14"
near-sdk = { version = "=5.29.1", features = ["unit-testing"] }
near-sdk-contract-tools = "=4.0.0"
