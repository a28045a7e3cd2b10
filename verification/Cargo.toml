[package]
name = "jupiter-rewards"
version = "0.1.0"
edition = "2021"
publish = false

[dependencies]
anchor-lang = "0.28.0"
anchor-spl = { version = "0.28.0", features = ["token", "token_2022"] }
solana-program = "~1.16"
spl-token-2022 = { version = "0.6", features = ["no-entrypoint"] }
