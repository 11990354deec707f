[package]
name = "polymarket_client_sdk"
version = "0.1.0"
edition = "2021"
publish = false

[dependencies]
alloy-primitives = "=1.7.3"
alloy-signer = "=2.5.0"
alloy-signer-local = "=2.5.0"
hmac = "=0.13.0"
sha2 = "=0.11.0"
base64 = "=0.23.1"
getrandom = "=0.4.3"
serde = { version = "=1.0.229", features = ["derive"] }
serde_json = "=1.0.151"
reqwest = { version = "=0.13.5", default-features = false, features = ["json"] }
url = "=2.5.8"
chrono = { version = "=0.4.45", default-features = false, features = ["clock", "serde"] }
