[package]
name = "http_client_provider"
version = "0.1.0"
edition = "2021"
publish = false

[dependencies]
reqwest = { version = "=0.13.5", default-features = false, features = ["blocking"] }
wascc-codec = "=0.9.1"
serde = { version = "1", features = ["derive"] }
rmp = "=0.8.10"
log = "=0.4.34"
env_logger = "*"
