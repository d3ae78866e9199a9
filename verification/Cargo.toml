[package]
name = "voxlore"
version = "0.1.0"
edition = "2021"
publish = false

[dependencies]
base64 = "0.22"
chrono = { version = "0.4", default-features = false, features = ["clock", "std"] }
cocoa = "0.26"
cpal = "0.15"
ferrous-opencc = "*"
keyring = "3"
reqwest = { version = "0.12", default-features = false, features = ["json", "multipart"] }
serde = { version = "1", features = ["derive"] }
serde_json = "1"
thiserror = "1"
tokio = { version = "1", default-features = false, features = ["rt-multi-thread", "time", "sync"] }
vosk = "0.3"
