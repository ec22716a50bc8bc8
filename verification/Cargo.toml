[package]
name = "federation"
version = "0.1.0"
edition = "2021"
publish = false

[dependencies]
error-chain = { version = "=0.12.4", default-features = false }
parity-codec = { version = "=3.5.4", features = ["derive"] }
