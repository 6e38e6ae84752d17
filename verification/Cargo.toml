[package]
name = "acter_executor"
version = "0.1.0"
edition = "2021"
publish = false

[dependencies]
async-broadcast = "=0.5.1"
chrono = { version = "=0.4.45", default-features = false, features = ["std"] }
dashmap = "=5.5.3"
ruma-common = "*"
serde = { version = "=1.0.229", features = ["derive"] }
serde_json = "=1.0.154"
tokio = { version = "=1.54.1", default-features = false, features = ["time", "sync"] }
