[package]
name = "luffy"
version = "0.1.0"
edition = "2021"
publish = false

[dependencies]
serde = { version = "1", features = ["derive"] }
serde_json = "1"
tokio = { version = "1", features = ["full"] }
warp = "0.3"
clap = "2"
log = "0.4"
env_logger = "*"
async-trait = "*"
nameof = "1"
thiserror = "1"
