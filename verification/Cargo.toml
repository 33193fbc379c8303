[package]
name = "asset_classification_smart_contract"
version = "0.1.0"
edition = "2021"
publish = false

[dependencies]
bech32 = "0.8"
cosmwasm-std = "1"
provwasm-std = "1"
schemars = "0.8"
semver = "1"
serde = { version = "1", default-features = false, features = ["derive"] }
thiserror = "1"
uuid = "0.8"
