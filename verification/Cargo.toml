[package]
name = "solana_groth16_verifier"
version = "0.1.0"
edition = "2021"
publish = false

[dependencies]
anchor-lang = "0.31"
solana-program = "2"

[dev-dependencies]
borsh = "1"
sha3 = "0.10"
