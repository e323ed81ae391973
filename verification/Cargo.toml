[package]
name = "gimbal_motion"
version = "0.1.0"
edition = "2021"
publish = false

[dependencies]
anyhow = "*"
async-executor = "*"
embassy-time = { version = "*", features = ["std"] }
embedded-hal = "0.2"
futures-lite = "*"
log = "*"
serde_json = "*"
thiserror = "*"
