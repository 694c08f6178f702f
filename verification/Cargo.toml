[package]
name = "shunpo"
version = "0.1.0"
edition = "2021"
publish = false

[dependencies]
nucleo = "*"
tokio = { version = "*", features = ["rt", "rt-multi-thread", "net", "sync", "io-util", "time", "macros"] }
async-channel = "*"
serde = { version = "*", features = ["derive"] }
serde_json = "*"
toml = "*"
log = "*"
env_logger = "*"
anyhow = "*"
single-instance = "*"
freedesktop-desktop-entry = "*"
