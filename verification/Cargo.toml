[package]
name = "solcircle_arcium"
version = "0.1.0"
edition = "2021"
publish = false

[dependencies]
anchor-lang = "0.31"
anchor-spl = { version = "0.31", default-features = false, features = ["token"] }
arcis-imports = "0.3"
arcium-anchor = "0.3"
arcium-client = { version = "0.3", default-features = false }
solana-program = "2"
