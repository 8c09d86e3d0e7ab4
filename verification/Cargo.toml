[package]
name = "gitlab_adapter"
version = "0.1.0"
edition = "2021"
publish = false

[dependencies]
chrono = "=0.4.45"
gitlab = "=0.1905.0"
ron = "=0.12.2"
serde = { version = "=1.0.229", features = ["derive"] }
serde_json = "=1.0.154"
trustfall = "=0.4.0"
trustfall_core = "=0.4.0"
