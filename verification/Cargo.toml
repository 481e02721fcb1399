[package]
name = "gooseboy"
version = "1.0.0"
edition = "2021"
publish = false

[dependencies]
anyhow = "1"
clap = { version = "4", features = ["derive"] }
env_logger = "0.11"
log = "0.4"
serde_json = "1"
zip = { version = "2", default-features = false, features = ["deflate"] }
