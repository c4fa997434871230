[package]
name = "sector_worker"
version = "0.1.0"
edition = "2021"
publish = false

[dependencies]
anyhow = "*"
backtrace = "*"
env_logger = "*"
log = "*"
serde = { version = "*", features = ["derive"] }
serde_json = "*"
filecoin-proofs = { version = "*", default-features = false }
