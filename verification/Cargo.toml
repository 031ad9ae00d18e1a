[package]
name = "appservice_delta"
version = "0.1.0"
edition = "2021"
publish = false

[dependencies]
anyhow = "1"
async-std = { version = "1", features = ["attributes"] }
dashmap = "4"
log = "0.4"
matrix-sdk = { version = "0.4.1", default-features = false, features = ["rustls-tls"] }
pretty_env_logger = "0.4"
serde = { version = "1", features = ["derive"] }
serde_json = { version = "1", features = ["raw_value"] }
shell-words = "1"
