[package]
name = "simcam"
version = "0.1.0"
edition = "2021"
publish = false

[dependencies]
ndarray = "*"
ascom-alpaca = { version = "=1.0.0-beta.10", features = ["camera", "server"] }
async-trait = "*"
tokio = { version = "*", features = ["full"] }
env_logger = "*"
eyre = "*"
log = "*"
