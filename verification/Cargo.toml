[package]
name = "niri_sense"
version = "0.1.0"
edition = "2021"
publish = false

[dependencies]
anyhow = "1"
buttplug_client = "*"
buttplug_core = "*"
buttplug_transport_websocket_tungstenite = "*"
dirs = "*"
env_logger = "*"
futures-util = "0.3"
log = "0.4"
niri-ipc = "*"
tokio = { version = "1", features = ["rt-multi-thread", "macros", "sync", "time"] }
toml = "*"
