[package]
name = "protosuit_engine"
version = "0.1.0"
edition = "2021"
publish = false

[dependencies]
anyhow = "1"
chrono = "0.4"
dashmap = "*"
env_logger = "*"
hostname = "*"
lazy_static = "1"
local-ip-address = "*"
log = "0.4"
rumqttc = "*"
sdl2 = { version = "*", features = ["ttf"] }
serde = { version = "1", features = ["derive"] }
serde_json = "1"
systemstat = "*"
thiserror = "*"
tokio = { version = "1", features = ["macros", "rt-multi-thread", "sync", "time", "signal"] }
x11rb = { version = "*", features = ["allow-unsafe-code"] }
