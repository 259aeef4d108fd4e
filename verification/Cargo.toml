[package]
name = "creator_payer"
version = "0.1.0"
edition = "2021"
publish = false

[dependencies]
anchor-lang = "0.24.2"
metaplex-token-metadata = { version = "0.0.1", features = ["no-entrypoint"] }
mpl-token-metadata = { version = "1", features = ["no-entrypoint"] }
solana-program = "1"
