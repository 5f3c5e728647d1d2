[package]
name = "erc20_metrics"
version = "0.1.0"
edition = "2021"
publish = false

[dependencies]
alloy = { version = "=2.5.0", default-features = false }
anyhow = "=1.0.104"
async-std = { version = "=1.13.2", features = ["attributes"] }
dotenvy = "=0.15.7"
figment = { version = "=0.10.19", features = ["toml"] }
futures = "=0.3.34"
poem = "*"
prometheus = { version = "=0.14.0", default-features = false }
reqwest = { version = "=0.13.5", default-features = false }
serde = { version = "=1.0.229", features = ["derive"] }
uniswap-v3-sdk = "*"
