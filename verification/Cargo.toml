[package]
name = "hello_world"
version = "0.1.0"
edition = "2021"
publish = false

[dependencies]
anchor-lang = { version = "=0.29.0", features = ["init-if-needed"] }
wormhole-anchor-sdk = "=0.29.0-alpha.1"
