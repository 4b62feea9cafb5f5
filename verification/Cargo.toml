[package]
name = "solana_vanity"
version = "0.1.0"
edition = "2021"
publish = false

[dependencies]
actix-web = "4"
bs58 = "0.5"
crossbeam-channel = "0.5"
dashmap = "6"
ed25519-dalek = { version = "2", features = ["rand_core"] }
env_logger = "0.11"
log = "0.4"
num_cpus = "1"
rand = "0.8"
serde = { version = "1", features = ["derive"] }
serde_json = "1"
tokio = { version = "1", features = ["rt"] }
uuid = { version = "1", features = ["v4"] }
