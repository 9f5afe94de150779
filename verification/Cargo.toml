[package]
name = "codex_transfer"
version = "0.1.0"
edition = "2021"
publish = false

[dependencies]
base64 = "0.22"
bytes = "1"
futures = "0.3"
futures-util = "0.3"
http = "1"
reqwest = { version = "0.12", default-features = false, features = ["json"] }
serde_json = "1"
tokio = { version = "1", features = ["rt", "time", "net", "macros"] }
tokio-tungstenite = "0.24"
tracing = "0.1"
