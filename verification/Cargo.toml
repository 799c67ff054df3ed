[package]
name = "biliupmgr"
version = "0.1.0"
edition = "2021"
publish = false

[dependencies]
chrono = "*"
serde = { version = "*", features = ["derive"] }
serde_json = "*"
serde_yaml = "*"
tokio = { version = "*", features = ["full"] }
actix-web = "*"
anyhow = "*"
log = "*"
env_logger = "*"
futures = "*"
biliup = "0.1"
