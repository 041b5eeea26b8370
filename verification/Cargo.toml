[package]
name = "simple_faas_docker"
version = "0.1.0"
edition = "2021"
publish = false

[dependencies]
base64 = "0.13"
serde_json = "1"
url = "2"
anyhow = "1"
bytes = "1"
env_logger = { version = "0.10", default-features = false }
log = "0.4"
reqwest = { version = "0.11", default-features = false }
serde = { version = "1", features = ["derive"] }
serde_yaml = "0.9"
tokio = { version = "1", features = ["rt", "macros"] }
warp = { version = "0.3", default-features = false }
