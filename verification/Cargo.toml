[package]
name = "ken_desktop"
version = "0.1.0"
edition = "2021"
publish = false

[dependencies]
keyring = "=2.3.3"
serde = { version = "=1.0.229", features = ["derive"] }
