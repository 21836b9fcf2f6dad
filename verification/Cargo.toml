[package]
name = "solana_audit_kit"
version = "0.1.0"
edition = "2021"
publish = false

[dependencies]
solana-sdk = "=3.0.0"
solana-sdk-ids = "=3.1.0"
solana-pubkey = { version = "4", features = ["curve25519"] }
arbitrary = { version = "=1.5.0", features = ["derive"] }
honggfuzz = "=0.5.62"
litesvm = "=0.13.1"
