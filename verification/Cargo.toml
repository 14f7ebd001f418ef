[package]
name = "solana_streamer"
version = "0.1.0"
edition = "2021"
publish = false

[dependencies]
solana-sdk = { version = "=2.3.1", default-features = false }
spl-associated-token-account = { version = "=6.0.0", features = ["no-entrypoint"] }
spl-token = { version = "=7.0.0", features = ["no-entrypoint"] }
prost-types = "=0.13.5"
tokio = { version = "=1.54.1", features = ["rt", "sync", "time", "macros"] }
futures = "=0.3.34"
log = "=0.4.34"

[dev-dependencies]
borsh = "=1.8.1"
