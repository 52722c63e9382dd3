[package]
name = "escrow"
version = "0.1.0"
edition = "2021"

[dependencies]
solana-program = "=2.3.0"
spl-token = "=8.0.0"
thiserror = "=2.0.21"

[dev-dependencies]
borsh = "=1.8.1"
