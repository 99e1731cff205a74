[package]
name = "generic-simd"
version = "0.1.0"
edition = "2021"
publish = false

[dependencies]
multiversion = "0.6"
num-complex = { version = "0.3", default-features = false }
