[package]
name = "chaincash_offchain"
version = "0.1.0"
edition = "2021"

[dependencies]
ergo-lib = "*"
