[package]
name = "user_intake"
version = "0.1.0"
edition = "2021"
publish = false

[dependencies]
serde_json = "1"
serde = { version = "1", features = ["derive"] }
warp = { version = "0.3", default-features = false }
tokio = { version = "1", features = ["rt"] }
mongodb = { version = "2", default-features = false, features = ["tokio-sync"] }
futures = "0.3"
log = "0.4"
env_logger = "0.10"
