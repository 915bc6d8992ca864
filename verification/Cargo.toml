[package]
name = "tiktok_market"
version = "0.1.0"
edition = "2021"
publish = false

[dependencies]
anchor-lang = { version = "=0.25.0", features = ["init-if-needed"] }
anchor-spl = { version = "=0.25.0", features = ["metadata"] }
solana-program = "=1.10.41"
spl-token = { version = "=3.3.1", features = ["no-entrypoint"] }
spl-associated-token-account = { version = "=1.0.5", features = ["no-entrypoint"] }
mpl-token-metadata = { version = "=1.6.5", features = ["no-entrypoint"] }
