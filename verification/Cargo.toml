[package]
name = "streamswap"
version = "0.2.1"
edition = "2021"
publish = false

[dependencies]
cosmwasm-std = { version = "=1.5.11", features = ["cosmwasm_1_2"] }
cw-utils = "=1.0.3"
cw-storage-plus = "=1.2.0"
cw2 = "=1.1.2"
cosmwasm-schema = "=1.5.11"
semver = "=1.0.28"
thiserror = "=1.0.69"
serde = { version = "=1.0.229", default-features = false, features = ["derive"] }
