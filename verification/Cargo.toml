[package]
name = "spaceapi-dezentrale-server"
version = "0.1.0"
edition = "2021"
publish = false

[dependencies]
rand = "0.8"
rocket = { version = "0.5", features = ["json"] }
tokio = { version = "1", features = ["sync", "time", "rt"] }
serde = { version = "1", features = ["derive"] }
serde_yaml = "0.9"
log = "0.4"
env_logger = "0.10"
