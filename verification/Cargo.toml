[package]
name = "drdotnet"
version = "0.1.0"
edition = "2021"
publish = false

[dependencies]
uuid = { version = "=1.29.1", features = ["serde"] }
dashmap = "=5.5.3"
itertools = "=0.10.5"
serde = { version = "=1.0.229", features = ["derive"] }
serde_json = "=1.0.154"
chrono = { version = "=0.4.45", features = ["serde"] }
log = "=0.4.35"
simplelog = "=0.12.2"
