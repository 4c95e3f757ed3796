[package]
name = "wmic-rs"
version = "0.1.0"
edition = "2021"
publish = false

[dependencies]
wmi = { version = "*", default-features = false }
