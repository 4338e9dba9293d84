[package]
name = "governance_rewards"
version = "0.1.0"
edition = "2021"
publish = false

[dependencies]
solana-pubkey = { version = "=3.0.0", features = ["curve25519"] }
spl-associated-token-account = "=8.0.0"

[dev-dependencies]
borsh = "=0.9.3"
spl-governance-addin-api = "*"
