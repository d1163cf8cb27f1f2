[package]
name = "log_drain"
version = "0.1.0"
edition = "2021"
publish = false

[dependencies]
ring = "0.17"
serde_json = "1"
tokio = { version = "1", features = ["sync", "rt-multi-thread", "macros", "net", "signal"] }
axum = "0.7"
clap = { version = "4", features = ["derive", "env"] }
