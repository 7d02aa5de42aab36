[package]
name = "slack_webhook"
version = "0.1.0"
edition = "2021"
publish = false

[dependencies]
anyhow = "1"
reqwest = { version = "0.12", default-features = false }

[dev-dependencies]
serde_json = "1"
