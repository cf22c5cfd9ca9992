[package]
name = "user_notify"
version = "0.1.0"
edition = "2021"
publish = false

[dependencies]
base64 = "0.22"
serde_json = "1"
quick-xml = "*"
uuid = { version = "1", features = ["v4"] }
