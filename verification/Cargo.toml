[package]
name = "web_rtc_server"
version = "0.1.0"
edition = "2021"
publish = false

[dependencies]
async-trait = "=0.1.92"
axum = { version = "=0.8.9", features = ["ws"] }
dashmap = "=6.2.1"
futures-util = "=0.3.34"
sdp = "=0.17.2"
serde = { version = "=1.0.229", features = ["derive"] }
serde_json = "=1.0.154"
thiserror = "=2.0.21"
tokio = { version = "=1.54.1", features = ["sync", "rt", "rt-multi-thread", "macros", "net", "time", "signal"] }
tracing = "=0.1.44"
tracing-subscriber = { version = "=0.3.23", features = ["env-filter", "fmt"] }
uuid = { version = "=1.29.0", features = ["v4", "serde"] }
webrtc = "=0.14.0"
