[package]
name = "solana_token_api"
version = "0.1.0"
edition = "2021"
publish = false

[dependencies]
bs58 = "*"
base64 = "*"
solana-sdk = "*"
spl-token = "*"
serde = { version = "*", features = ["derive"] }
actix-web = "*"
log = "*"
env_logger = "*"
