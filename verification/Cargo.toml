[package]
name = "kurayashiki"
version = "0.1.0"
edition = "2021"
publish = false

[dependencies]
pyth-client = "0.2"
anchor-lang = "*"
anchor-spl = "*"
solana-program = "*"
spl-token = "*"
borsh = "*"
