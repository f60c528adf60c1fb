[package]
name = "rest-bmc"
version = "0.1.0"
edition = "2021"
publish = false

[dependencies]
rocket = { version = "0.5.2", features = ["json"] }
serde = { version = "1", features = ["derive"] }
serde_json = "1"
log = "0.4"
pretty_env_logger = "0.5"
