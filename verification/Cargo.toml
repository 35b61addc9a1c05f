[package]
name = "rmikanos"
version = "0.1.0"
edition = "2021"
publish = false

[dependencies]
bootloader = "0.10"
conquer-once = { version = "0.3", default-features = false }
spin = "0.9"
