[package]
name = "virtual_camera"
version = "0.1.0"
edition = "2021"
publish = false

[dependencies]
env_logger = "0.11"
ffmpeg-next = "7"
futures-util = "0.3"
log = "0.4"
make87 = { version = "=0.2.4", features = ["protobuf"] }
make87_messages = "=0.2.7"
reqwest = { version = "=0.12.28", default-features = false, features = ["rustls-tls", "stream"] }
serde_json = "=1.0.154"
sha2 = "=0.10.9"
tokio = { version = "1", features = ["fs", "io-util", "macros", "rt-multi-thread", "time"] }
uuid = { version = "=1.29.0", features = ["v4"] }
