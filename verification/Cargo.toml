[package]
name = "pumpfun"
version = "0.1.0"
edition = "2021"
publish = false

[dependencies]
anchor-spl = { version = "0.31.2", default-features = false, features = ["associated_token"] }
borsh = { version = "1.5", default-features = false, features = ["std"] }
serde = { version = "1.0", features = ["derive"] }
solana-sdk = "2.3"
