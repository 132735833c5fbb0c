[package]
name = "coin_flip"
version = "0.1.0"
edition = "2021"
publish = false

[dependencies]
anchor-lang = "=0.29.0"
orao-solana-vrf = { version = "=0.4.0", default-features = false, features = ["cpi"] }
solana-program = "=1.16.25"
spl-memo = "=4.0.0"
spl-token = "=4.0.0"
