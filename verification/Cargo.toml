[package]
name = "signal2sip"
version = "0.1.0"
edition = "2021"
publish = false

[dependencies]
anyhow = "1"
log = { version = "0.4", features = ["std"] }
