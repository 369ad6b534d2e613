[package]
name = "elite_presence"
version = "0.1.0"
edition = "2021"
publish = false

[dependencies]
serde = { version = "=1.0.229", features = ["derive"] }
serde_json = "=1.0.154"
serde_repr = "=0.1.21"
tokio = { version = "=1.54.1", features = ["full"] }
chrono = { version = "=0.4.45", features = ["serde"] }
anyhow = "=1.0.104"
tracing = "=0.1.44"
tracing-subscriber = { version = "=0.3.23", features = ["env-filter"] }
edjr = { version = "=0.2.0", features = ["full", "tokio"] }
