[package]
name = "vwisper"
version = "0.1.0"
edition = "2021"
publish = false

[dependencies]
base64 = "=0.22.1"
chrono = { version = "=0.4.45", features = ["serde"] }
clipboard = "=0.5.0"
cpal = "0.15"
dirs = "=7.0.0"
hound = "=3.5.1"
log = "=0.4.34"
reqwest = { version = "=0.12.28", features = ["blocking", "multipart"] }
serde = { version = "=1.0.229", features = ["derive"] }
serde_json = "=1.0.154"
uuid = { version = "=1.29.0", features = ["v4"] }
