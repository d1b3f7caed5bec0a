[package]
name = "myzero2prod"
version = "0.1.0"
edition = "2021"
publish = false

[dependencies]
validator = "0.20"
secrecy = "0.10"
reqwest = { version = "0.12", default-features = false }
