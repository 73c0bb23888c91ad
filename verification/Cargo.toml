[package]
name = "solana_trading_sdk"
version = "0.1.0"
edition = "2021"
publish = false

[dependencies]
async-trait = "=0.1.92"
base64 = "=0.22.1"
bincode = "=1.3.3"
futures = "=0.3.34"
rand = "=0.9.5"
reqwest = { version = "0.12", default-features = false, features = ["json"] }
serde = { version = "=1.0.229", features = ["derive"] }
serde_json = "=1.0.154"
solana-sdk = "=2.3.1"
spl-associated-token-account = "=7.0.0"
spl-token = "=8.0.0"
tokio = { version = "=1.54.1", features = ["rt-multi-thread"] }
