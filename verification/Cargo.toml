[package]
name = "solclient"
version = "0.1.0"
edition = "2021"
publish = false

[dependencies]
sha2 = "0.10"
solana-sdk = "=1.18.26"
solana-program = "=1.18.26"
spl-token = "*"
spl-associated-token-account = "*"
serde_json = "1"
shellexpand = "3"
