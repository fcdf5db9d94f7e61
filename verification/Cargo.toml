[package]
name = "vexmason"
version = "0.1.0"
edition = "2021"
publish = false

[dependencies]
anyhow = "=1.0.104"
base64 = "=0.22.1"
chrono = "=0.4.45"
dunce = "=1.0.5"
flexi_logger = "=0.31.10"
log = "=0.4.34"
octocrab = "=0.47.1"
reqwest = "=0.13.5"
semver = "=1.0.28"
serde = { version = "=1.0.229", features = ["derive"] }
serde_json = "=1.0.154"
tokio = { version = "=1.54.1", features = ["full"] }

[dev-dependencies]
regex = "=1.13.1"
