[package]
name = "rocket_sentry_logger"
version = "0.1.0"
edition = "2021"
publish = false

[dependencies]
rocket = { version = "0.5", default-features = false }
sentry = { version = "=0.49.3", default-features = false }
serde_json = "=1.0.154"
