[package]
name = "cosmwasm-tunnel"
version = "0.1.0"
edition = "2021"
publish = false

[dependencies]
cosmwasm-schema = "1.5"
cosmwasm-std = { version = "1.5", features = ["stargate", "ibc3"] }
cw-storage-plus = "1.2"
cw-utils = "1.0"
thiserror = "1.0"
