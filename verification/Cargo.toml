[package]
name = "fork_choice"
version = "0.1.0"
edition = "2021"
publish = false

[dependencies]
ethrex-blockchain = "=24.0.0"
ethrex-common = "=24.0.0"
ethrex-storage = "=24.0.0"
serde = { version = "*", features = ["derive"] }
serde_json = "*"
tokio = { version = "*", features = ["rt", "sync"] }
