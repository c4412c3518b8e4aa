[package]
name = "pass"
version = "0.1.0"
edition = "2021"
publish = false

[dependencies]
ssh-key = { version = "0.6", features = ["encryption", "std"] }
anyhow = "1"
async-trait = "0.1"
clap = { version = "4", features = ["derive"] }
futures = "0.3"
parking_lot = "0.12"
serde = { version = "1", features = ["derive"] }
serde_json = "1"
tokio = { version = "1", features = ["sync"] }
zeroize = { version = "1", features = ["derive"] }
