[package]
name = "pool_admin"
version = "0.1.0"
edition = "2021"
publish = false

[dependencies]
solana-sdk = "2"
clap = { version = "4", features = ["derive"] }
configparser = "3"
anyhow = "1"

[dev-dependencies]
spl-associated-token-account = "6"
