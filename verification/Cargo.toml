[package]
name = "keyring_macos"
version = "0.1.0"
edition = "2021"
publish = false

[dependencies]
security-framework = "*"
