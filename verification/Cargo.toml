[package]
name = "pump_sniper"
version = "0.1.0"
edition = "2021"
publish = false

[dependencies]
bincode = "1"
borsh = "1"
chrono = "0.4"
dotenvy = "0.15"
redis = { version = "0.32", default-features = false, features = ["aio", "tokio-comp"] }
solana-sdk = "2.3"
spl-associated-token-account = { version = "7", default-features = false }
spl-token = { version = "8", default-features = false }
tokio = { version = "1", features = ["rt-multi-thread", "macros", "time", "sync"] }
