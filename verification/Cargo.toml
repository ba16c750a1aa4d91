[package]
name = "areion"
version = "0.1.0"
edition = "2021"
publish = false

[dependencies]
digest = "0.10"
