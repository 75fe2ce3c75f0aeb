[package]
name = "audio_capture"
version = "0.1.0"
edition = "2021"
publish = false

[dependencies]
chrono = "*"
cpal = "*"
reqwest = { version = "*", default-features = false, features = ["blocking", "json", "multipart"] }
serde = { version = "*", features = ["derive"] }
serde_json = "*"
temp-dir = "*"

[dev-dependencies]
hound = "*"
