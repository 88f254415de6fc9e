[package]
name = "torchflower"
version = "0.1.0"
edition = "2021"
publish = false

[dependencies]
aes = "=0.8.4"
ctr = "=0.9.2"
sha2 = "=0.10.9"
p384 = { version = "=0.13.1", features = ["ecdh"] }
flate2 = "=1.1.10"
snap = "=1.1.2"
base64 = "=0.22.1"
uuid = { version = "=1.29.0", features = ["serde"] }
serde = { version = "1", features = ["derive"] }
serde_json = "1"
zip = { version = "*", default-features = false }
