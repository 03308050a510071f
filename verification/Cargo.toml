[package]
name = "themis"
version = "0.1.0"
edition = "2021"
publish = false

[dependencies]
solana-program = "=1.14.29"
solana-sdk = "=1.14.29"
spl-governance = "=2.2.4"
spl-governance-tools = "=0.1.2"
spl-governance-addin-api = "=0.1.2"
borsh = "0.9"
serde_json = "1"
base64 = "0.13"
bs58 = "0.4"
