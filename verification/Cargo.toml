[package]
name = "subxt"
version = "0.1.0"
edition = "2021"
publish = false

[dependencies]
parity-scale-codec = { version = "=3.7.5", features = ["derive"] }
scale-info = "=2.11.6"
frame-metadata = "=23.0.1"
hex = "=0.4.3"
serde = { version = "=1.0.229", features = ["derive"] }
serde_json = "=1.0.154"
thiserror = "=1.0.69"
sp-core = "=43.0.0"
sp-runtime = "=49.0.0"
sp-crypto-hashing = "=0.1.0"
