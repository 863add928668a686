[package]
name = "slack-hook"
version = "0.1.0"
edition = "2021"
publish = false

[dependencies]
chrono = { version = "=0.4.45", default-features = false, features = ["std"] }
hex = "=0.4.3"
reqwest = { version = "=0.12.28", default-features = false, features = ["blocking", "default-tls"] }
serde_json = { version = "=1.0.154", features = ["preserve_order"] }
url = "=2.5.8"
