[package]
name = "mcumgr_toolkit"
version = "0.1.0"
edition = "2021"
publish = false

[dependencies]
base64 = "=0.23.1"
chrono = "=0.4.45"
hex = "=0.4.3"
rand = "=0.10.3"
sha2 = "=0.11.0"

[dev-dependencies]
ciborium = "=0.2.2"
