[package]
name = "audio_websocket"
version = "0.1.0"
edition = "2021"
publish = false

[dependencies]
tokio = { version = "1", features = ["rt-multi-thread", "net", "sync", "macros", "io-util", "time"] }
tokio-tungstenite = "*"
futures-util = "0.3"
log = "0.4"
env_logger = "0.11"

[dev-dependencies]
serde_json = "1"
