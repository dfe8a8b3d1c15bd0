[package]
name = "nexus_prime_core"
version = "0.1.0"
edition = "2021"
publish = false

[dependencies]
chrono = { version = "=0.4.45", features = ["serde"] }
uuid = { version = "=1.29.0", features = ["v4"] }
base64 = "=0.21.7"
tokio = { version = "=1.54.1", features = ["full"] }
tokio-stream = { version = "=0.1.19", features = ["sync"] }
tonic = "=0.12.3"
prost = "=0.13.5"
axum = { version = "=0.7.9", features = ["ws"] }
futures = "=0.3.34"
sled = "=0.34.7"
bincode = "=1.3.3"
serde = { version = "=1.0.229", features = ["derive"] }
serde_json = "=1.0.154"
toml = "=0.8.23"
log = "=0.4.34"
env_logger = "=0.11.11"
config = { version = "0.14", default-features = false, features = ["toml"] }
