[package]
name = "trade_locker_connector"
version = "0.1.0"
edition = "2021"
publish = false

[dependencies]
async-trait = "0.1"
chrono = { version = "0.4", features = ["serde"] }
http = "1"
serde = { version = "1", features = ["derive"] }
serde_json = "1"
serde_qs = "1"
tokio = { version = "1", features = ["rt", "sync", "time"] }
