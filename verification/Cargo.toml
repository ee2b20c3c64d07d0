[package]
name = "spotify_ripper"
version = "0.1.0"
edition = "2021"
publish = false

[dependencies]
base64 = "=0.21.7"
log = "0.4"
env_logger = "=0.10.2"
serde = { version = "1", features = ["derive"] }
serde_json = "1"
tokio = { version = "1", features = ["macros", "rt-multi-thread", "sync"] }
axum = "=0.6.20"
rspotify = { version = "=0.12.0", default-features = false, features = ["client-reqwest", "reqwest-rustls-tls"] }
google-cloud-pubsub = "0.30"
google-cloud-storage = { version = "=0.24.0", default-features = false, features = ["rustls-tls", "auth"] }
google-cloud-googleapis = { version = "0.16", features = ["pubsub"] }
