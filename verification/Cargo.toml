[package]
name = "secbuf"
version = "0.1.0"
edition = "2021"
publish = false

[dependencies]
zeroize = "1"
crossbeam = "0.8"
anyhow = "1"
