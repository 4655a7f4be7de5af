[package]
name = "payload_dispatch"
version = "0.1.0"
edition = "2021"
publish = false

[dependencies]
serial = "0.4"
serde = { version = "1", features = ["derive"] }
