[package]
name = "flagsmith_analytics"
version = "0.1.0"
edition = "2021"
publish = false

[dependencies]
chrono = { version = "0.4", default-features = false, features = ["clock"] }
serde_json = "1"
log = "0.4"
reqwest = { version = "0.11", default-features = false }
tokio = { version = "1", features = ["rt", "sync"] }
