[package]
name = "rtsp_webrtc"
version = "0.1.0"
edition = "2021"
publish = false

[dependencies]
base64 = "=0.13.1"
anyhow = "=1.0.104"
serde = { version = "=1.0.229", features = ["derive"] }
serde_json = "=1.0.154"
axum = "=0.5.17"
axum-extra = { version = "=0.3.7", features = ["spa"] }
axum-macros = "=0.2.3"
tokio = { version = "=1.54.1", features = ["full"] }
tower = "=0.4.13"
tower-http = { version = "=0.3.5", features = ["trace"] }
tracing-subscriber = "=0.3.23"
clap = { version = "=3.2.25", features = ["derive"] }
color-eyre = "=0.6.5"
log = "=0.4.35"
futures = "=0.3.34"
derive_more = "=0.99.20"
webrtc = "0.11"
gstreamer = "=0.18.8"
gstreamer-app = "=0.18.7"
glib = "=0.15.12"
