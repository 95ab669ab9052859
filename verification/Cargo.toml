[package]
name = "scribe"
version = "0.1.0"
edition = "2021"
publish = false

[dependencies]
base64 = "0.22"
chrono = "0.4"
cpal = "0.15"
dirs = "5"
futures-util = "0.3"
hound = "3.5"
parking_lot = "0.12"
reqwest = { version = "0.11", default-features = false, features = ["json", "multipart", "rustls-tls"] }
security-framework = "2"
serde = { version = "1", features = ["derive"] }
serde_json = "1"
tokio = { version = "1", features = ["fs", "macros", "rt-multi-thread", "sync", "time"] }
tokio-tungstenite = { version = "0.21", features = ["rustls-tls-webpki-roots"] }
