[package]
name = "odx"
version = "0.1.0"
edition = "2021"
publish = false

[dependencies]
sentry = { version = "*", default-features = false }
serde_json = "*"
ansi_term = "*"
log = "*"

[dev-dependencies]
sentry = { version = "*", default-features = false, features = ["test"] }
