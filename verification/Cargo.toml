[package]
name = "feishu-notifier"
version = "0.1.0"
edition = "2021"
publish = false

[dependencies]
base64 = "0.13"
eyre = "0.6"
hmac = "0.11"
log = "0.4"
reqwest = { version = "0.11", features = ["json"] }
serde_json = "1"
sha2 = "0.9"
