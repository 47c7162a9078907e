[package]
name = "firmware_updater"
version = "0.1.0"
edition = "2021"
publish = false

[dependencies]
ed25519-dalek = "1"
embedded-storage = "0.3"
embedded-storage-async = "0.4"
