[package]
name = "datanalyzer"
version = "0.1.0"
edition = "2021"
publish = false

[dependencies]
chrono = "0.4"
csv = "1"
futures-util = "0.3"
log = "0.4"
reqwest = { version = "0.12", default-features = false }
serde = { version = "1", features = ["derive"] }
serde_json = "1"
solana-sdk = "2.2"
tokio = { version = "1", features = ["rt", "macros", "sync", "time"] }
