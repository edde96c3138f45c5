[package]
name = "hyperliquid_rust_sdk"
version = "0.1.0"
edition = "2021"
publish = false

[dependencies]
ethers = { version = "2.0.14", default-features = false }
rust_decimal = "1"
serde = { version = "1", features = ["derive"] }
serde_json = "1"
tokio = { version = "1", features = ["rt-multi-thread", "macros", "time", "sync", "net"] }
tokio-tungstenite = { version = "0.20", features = ["rustls-tls-webpki-roots"] }
futures-util = "0.3"
reqwest = { version = "0.11", default-features = false, features = ["json", "rustls-tls"] }
env_logger = "0.11"
log = "0.4"
