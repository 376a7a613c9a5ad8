[package]
name = "codex_overlay"
version = "0.1.0"
edition = "2021"
publish = false

[dependencies]
sha2 = "=0.10.9"
base64 = "=0.22.1"
uuid = { version = "1", features = ["v4"] }
serde = { version = "1", features = ["derive"] }
serde_json = "1"
tokio = { version = "1", features = ["full"] }
futures-util = { version = "0.3", features = ["sink"] }
tokio-tungstenite = { version = "0.26", features = ["native-tls"] }
axum = { version = "0.8", features = ["ws"] }
cpal = "0.15"
tracing = "0.1"
webrtc-audio-processing = "2"
webrtc-audio-processing-config = "2"
