[package]
name = "ledger_client"
version = "0.1.0"
edition = "2021"
publish = false

[dependencies]
serde_json = "*"
sha2 = "*"
anoncreds-clsignatures = "*"
tokio = { version = "*", features = ["sync", "rt"] }
env_logger = "*"
once_cell = "*"
thiserror = "*"
