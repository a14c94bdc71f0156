[package]
name = "geyser_ingest"
version = "0.1.0"
edition = "2021"
publish = false

[dependencies]
anyhow = "=1.0.104"
clap = { version = "=4.6.7", features = ["derive"] }
env_logger = "=0.11.11"
futures = "=0.3.34"
log = "=0.4.34"
serde_json = "=1.0.154"
solana-pubkey = "=4.4.0"
solana-signature = "=3.6.0"
sqlx = { version = "=0.9.0", default-features = false, features = ["postgres", "runtime-tokio"] }
tokio = { version = "=1.54.1", features = ["rt-multi-thread", "macros", "time", "signal"] }
tonic = "=0.14.6"
yellowstone-grpc-client = "=16.0.0"
yellowstone-grpc-proto = "=14.0.1"
