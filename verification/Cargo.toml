[package]
name = "watch_room"
version = "0.1.0"
edition = "2021"
publish = false

[dependencies]
chrono = { version = "=0.4.45", default-features = false, features = ["clock", "std"] }
actix = "=0.10.0"
actix-web = { version = "=3.3.3", default-features = false }
actix-web-actors = "=3.0.0"
actix-files = "=0.5.0"
actix-identity = "=0.3.1"
actix-rt = "=1.1.1"
askama = "=0.10.5"
askama_actix = "=0.11.1"
anyhow = "1"
env_logger = { version = "=0.8.4", default-features = false }
log = "0.4"
serde = { version = "1", features = ["derive"] }
serde_json = "1"
stop-token = { version = "=0.1.2", features = ["unstable"] }
async-std = { version = "=1.5.0", features = ["unstable"] }
tokio = { version = "=0.2.25", features = ["time", "rt-core"] }
