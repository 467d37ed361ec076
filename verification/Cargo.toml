[package]
name = "jute"
version = "0.1.0"
edition = "2021"
publish = false

[dependencies]
async-channel = "2"
bytes = "1"
dashmap = "6"
futures-util = "0.3"
hmac = "0.12"
rand = "0.8"
serde = { version = "1", features = ["derive"] }
serde_json = "1"
sha2 = "0.10"
thiserror = "1"
time = { version = "0.3", features = ["formatting", "parsing", "serde-well-known"] }
tokio = { version = "1", features = ["full"] }
tokio-tungstenite = "0.24"
tokio-util = "0.7"
tracing = "0.1"
uuid = { version = "1", features = ["v4"] }
zeromq = "0.4"
