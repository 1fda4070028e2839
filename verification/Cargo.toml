[package]
name = "invisible_agent"
version = "0.1.0"
edition = "2021"
publish = false

[dependencies]
base64 = "0.22"
serde = { version = "1", features = ["derive"] }
serde_json = "1"
reqwest = { version = "0.12", default-features = false, features = ["json", "stream", "multipart", "rustls-tls"] }
tokio = { version = "1", features = ["sync", "rt", "macros"] }
futures = "0.3"
anyhow = "1"
hound = "3"
uuid = { version = "1", features = ["v4"] }
log = "0.4"
cpal = "0.15"
objc2 = "0.6"
objc2-app-kit = "0.3"
objc2-foundation = "0.3"
dispatch2 = "0.3"
