[package]
name = "mii-sound"
version = "0.1.0"
edition = "2021"
publish = false

[dependencies]
anyhow = "1"
bytes = "1"
clap = { version = "4", features = ["derive"] }
dirs = "*"
env_logger = "*"
humantime = "2"
interprocess = { version = "2", features = ["tokio"] }
log = "0.4"
mii-http-client = "*"
serde = { version = "1", features = ["derive"] }
serde_json = "1"
tokio = { version = "1", features = ["full"] }
