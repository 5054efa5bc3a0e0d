[package]
name = "streams_channels"
version = "0.1.0"
edition = "2021"
publish = false

[dependencies]
base64 = "0.13"
chacha20poly1305 = "0.9"
iota-crypto = { version = "*", features = ["blake2b"] }
rand = "0.8"
serde_json = "1"

[dev-dependencies]
bincode = "1"
