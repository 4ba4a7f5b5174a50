[package]
name = "carbonbot"
version = "0.1.0"
edition = "2021"
publish = false

[dependencies]
chrono = "0.4"
crypto-market-type = "*"
crypto-pair = "*"
dashmap = "*"
env_logger = "*"
lazy_static = "1"
log = "0.4"
redis = "*"
serde = { version = "1", features = ["derive"] }
serde_json = "1"
