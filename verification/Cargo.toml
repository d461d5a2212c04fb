[package]
name = "zk_proof_program"
version = "0.1.0"
edition = "2021"
publish = false

[dependencies]
bytemuck = "=1.25.2"
solana-zk-token-sdk = "=1.18.26"
solana-sdk = "=1.18.26"
solana-program-runtime = "=1.18.26"
