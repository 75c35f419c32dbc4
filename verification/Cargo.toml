[package]
name = "miden-standards"
version = "0.1.0"
edition = "2021"
publish = false

[dependencies]
miden-crypto = { version = "=0.22.6", default-features = false }
