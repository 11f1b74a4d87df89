[package]
name = "weak_hands"
version = "0.1.0"
edition = "2021"
publish = false

[dependencies]
anchor-lang = "=0.30.1"
bytemuck = "=1.25.2"
pyth-sdk-solana = "=0.10.6"
solana-program = "=1.18.26"
