[package]
name = "pipeline_relay"
version = "0.1.0"
edition = "2021"
publish = false

[dependencies]
anyhow = "=1.0.104"
axum = "=0.8.9"
env_logger = "=0.11.11"
gitlab = "=0.1904.0"
log = "=0.4.34"
reqwest = "=0.10.10"
serde = { version = "=1.0.229", features = ["derive"] }
slack_api = "=0.23.1"
tokio = { version = "=1.53.2", features = ["macros", "rt-multi-thread", "net"] }
