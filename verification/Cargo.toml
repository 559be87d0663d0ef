[package]
name = "content_ledger"
version = "0.1.0"
edition = "2021"
publish = false

[dependencies]
chrono = "0.4"
clap = "2"
futures = "0.1"
hyper = "0.12"
lmdb-rs = "0.7"
log = "0.4"
pretty_env_logger = "0.3"
r2d2 = "0.8"
r2d2_redis = "0.8"
rdkafka = "0.17"
redis = "0.9"
rust-crypto = "0.2.36"
serde = { version = "1", features = ["derive"] }
serde_derive = "1"
serde_json = "1"
uuid = { version = "0.7", features = ["v4"] }
ws = "0.7"
