[package]
name = "connection_core"
version = "0.1.0"
edition = "2021"
publish = false

[dependencies]
serde_json = "1"
tokio = { version = "1", features = ["rt", "time", "sync", "macros"] }
futures = "0.3"
