[package]
name = "token_distributor"
version = "0.1.0"
edition = "2021"
publish = false

[dependencies]
borsh = "0.9"
num-derive = "0.3"
num-traits = "0.2"
solana-program = "~1.9"
spl-token = { version = "3", features = ["no-entrypoint"] }
spl-token-metadata = { version = "0.0.1", features = ["no-entrypoint"] }
thiserror = "1"
