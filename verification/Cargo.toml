[package]
name = "arcbio"
version = "0.1.0"
edition = "2021"
publish = false

[dependencies]
anchor-lang = "=1.0.2"
arcium-anchor = "=0.15.0"
solana-pubkey = { version = "=3.0.0", features = ["curve25519"] }
