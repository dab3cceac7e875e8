[package]
name = "trezor_api"
version = "0.1.0"
edition = "2021"
publish = false

[dependencies]
prost = "0.11"
bitcoin = "0.29"
bitcoin_hashes = "0.11"
secp256k1 = { version = "0.24", features = ["recovery"] }
unicode-normalization = "0.1"
hex = "0.4"
log = "0.4"
simplelog = "0.12"
anyhow = "1"
thiserror = "1"
clap = { version = "3.2", features = ["derive"] }
rusb = { version = "0.9", features = ["vendored"] }
hidapi-rusb = "1"
