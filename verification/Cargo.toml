[package]
name = "iota_sdk_bindings_core"
version = "0.1.0"
edition = "2021"
publish = false

[dependencies]
iota-sdk = { version = "=1.0.3", default-features = false, features = ["participation", "serde", "std"] }
serde = { version = "=1.0.229", features = ["derive"] }
serde_json = "=1.0.151"
derivative = "=2.2.0"
primitive-types = "=0.12.2"
url = "=2.5.8"
