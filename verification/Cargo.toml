[package]
name = "payload_crypto"
version = "0.1.0"
edition = "2021"
publish = false

[dependencies]
aes = "0.8"
base64 = "0.22"
hex = "0.4"
md-5 = "0.10"
num-bigint = "0.4"
rand = "0.8"
serde = { version = "1", features = ["derive"] }
