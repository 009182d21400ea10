[package]
name = "vr_arbiter"
version = "0.1.0"
edition = "2021"
publish = false

[dependencies]
rust-webvr = "=0.19.0"
rust-webvr-api = { version = "=0.17.0", features = ["serde-serialization"] }
ipc-channel = "=0.23.0"
serde = { version = "=1.0.229", features = ["derive"] }
