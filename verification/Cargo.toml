[package]
name = "reddit-save-bot"
version = "0.1.0"
edition = "2021"
publish = false

[dependencies]
anyhow = "=1.0.104"
axum = "=0.6.20"
chrono = "=0.4.45"
google_cloud_logging = "=0.1.0"
log = { version = "=0.4.34", features = ["std"] }
reqwest = { version = "=0.11.27", features = ["multipart"] }
serde = { version = "=1.0.229", features = ["derive"] }
serde_json = "=1.0.154"
tokio = { version = "=1.54.1", features = ["full"] }
url = "=2.5.8"
uuid = { version = "=1.29.0", features = ["v4"] }
ytd-rs = "=0.1.7"
