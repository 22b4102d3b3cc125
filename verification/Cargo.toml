[package]
name = "mime_sniff"
version = "0.1.0"
edition = "2021"
publish = false

[dependencies]
byteorder = "1"
serde_json = "1"
tokio = { version = "1", features = ["io-util"] }
