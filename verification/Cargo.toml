[package]
name = "simpledex"
version = "0.1.0"
edition = "2021"
publish = false

[dependencies]
solana-program = "=1.18.26"
spl-token = { version = "=3.5.0", features = ["no-entrypoint"] }
spl-associated-token-account = { version = "=1.0.5", features = ["no-entrypoint"] }
thiserror = "=1.0.69"
num-derive = "=0.3.3"
num-traits = "=0.2.19"
