[package]
name = "websocket_source"
version = "0.1.0"
edition = "2021"
publish = false

[dependencies]
solana-pubkey = "*"
solana-account-decoder-client-types = { version = "=4.2.2", features = ["agave-unstable-api"] }
async-channel = "=2.5.0"
anyhow = "=1.0.104"
log = "=0.4.34"
tokio = { version = "=1.53.2", features = ["rt-multi-thread", "time", "macros", "sync"] }
tokio-stream = "=0.1.19"
