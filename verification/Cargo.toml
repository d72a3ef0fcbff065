[package]
name = "cw20_vesting"
version = "0.1.0"
edition = "2021"
publish = false

[dependencies]
cosmwasm-std = "=2.3.5"
cw20 = "=2.0.0"
cw-storage-plus = "=2.0.0"
schemars = "0.8"
serde = { version = "=1.0.229", features = ["derive"] }
