[package]
name = "mm_client"
version = "0.1.0"
edition = "2021"
publish = false

[dependencies]
solana-sdk = "*"
