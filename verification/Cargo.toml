[package]
name = "humanrng"
version = "0.1.0"
edition = "2021"
publish = false

[dependencies]
bip39 = "2"
bitcoin = "0.29"
clap = { version = "4", features = ["derive"] }
