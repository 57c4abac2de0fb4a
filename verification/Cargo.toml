[package]
name = "arena_settle"
version = "0.1.0"
edition = "2021"
publish = false

[dependencies]
bytemuck = "=1.25.2"
solana-program = "=1.18.26"
solana-sdk = "=1.18.26"
switchboard-common = { version = "=0.8.22", features = ["client"] }
switchboard-solana = "=0.29.110"
tokio = { version = "=1.53.2", features = ["full"] }
