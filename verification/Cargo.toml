[package]
name = "rtsp_to_webrtc"
version = "0.1.0"
edition = "2021"
publish = false

[dependencies]
url = "=2.5.8"
webrtc = "=0.14.0"
retina = "=0.4.21"
tokio = { version = "=1.53.2", features = ["rt-multi-thread", "macros", "time"] }
rocket = "=0.5.1"
clap = "=4.6.7"
serde = { version = "=1.0.229", features = ["derive"] }
futures = "=0.3.34"
anyhow = "=1.0.104"
parking_lot = "=0.12.5"
tracing = "=0.1.44"
tracing-subscriber = "=0.3.23"
