[package]
name = "otc_escrow"
version = "0.1.0"
edition = "2021"
publish = false

[dependencies]
anchor-lang = "=0.31.2"
anchor-spl = "=0.31.2"
solana-pubkey = { version = "=2.4.0", features = ["curve25519"] }
