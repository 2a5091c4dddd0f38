[package]
name = "rig_supervisor"
version = "0.1.0"
edition = "2021"
publish = false

[dependencies]
anyhow = "1"
chrono = "0.4"
crossbeam-channel = "0.5"
serde = { version = "1", features = ["derive"] }
serde_with = "3"
toml = "0.8"
tracing = "0.1"
tracing-subscriber = "0.3"
