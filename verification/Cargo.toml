[package]
name = "reward_token"
version = "0.1.0"
edition = "2021"
publish = false

[dependencies]
cosmwasm-std = "0.16"
cw-storage-plus = "0.8"
cw2 = "0.8"
cw20 = "0.8"
cw20-legacy = "0.2"
terraswap = "~2.4"
schemars = "0.8"
serde = { version = "1.0", features = ["derive"] }
