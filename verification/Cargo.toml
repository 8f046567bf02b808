[package]
name = "framepacer"
version = "0.1.0"
edition = "2021"
publish = false

[dependencies]
crossbeam-channel = "=0.5.17"
serde_cbor = "=0.11.2"
image = { version = "=0.24.9", default-features = false }
imageproc = { version = "=0.23.1", default-features = false }
rusttype = "=0.9.3"

[dev-dependencies]
crossbeam-utils = "=0.8.23"
