[package]
name = "poh_recorder"
version = "0.1.0"
edition = "2021"
publish = false

[dependencies]
solana-sdk = "~1.6"
solana-runtime = "~1.6"
