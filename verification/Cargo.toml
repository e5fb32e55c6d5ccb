[package]
name = "webrtcsink"
version = "0.1.0"
edition = "2021"
publish = false

[dependencies]
anyhow = "1"
async-native-tls = "0.4"
async-std = "1"
async-tungstenite = { version = "0.19", features = ["async-std-runtime", "async-native-tls"] }
atomic_refcell = "0.1"
clap = { version = "4", features = ["derive"] }
futures = "0.3"
gstreamer = "0.19"
gstreamer-base = "0.19"
gstreamer-sdp = "0.19"
gstreamer-webrtc = "0.19"
once_cell = "1"
pin-project-lite = "0.2"
serde = { version = "1", features = ["derive"] }
serde_json = "1"
thiserror = "1"
tracing = "0.1"
tracing-log = "0.1"
tracing-subscriber = { version = "0.3", features = ["env-filter"] }
url = "2"
uuid = { version = "1", features = ["v4"] }
