[package]
name = "live_video"
version = "0.1.0"
edition = "2021"
publish = false

[dependencies]
async-trait = "0.1"
c2pa_cbor = "*"
chrono = { version = "0.4", default-features = false, features = ["std", "clock"] }
coset = "*"
ed25519-dalek = "2"
pem = "3"
serde = { version = "1", features = ["derive"] }
serde_json = "1"
zeroize = "1"
