[package]
name = "simple_verification"
version = "0.1.0"
edition = "2021"
publish = false

[dependencies]
blake3 = "*"
borsh = { version = "*", features = ["derive"] }
serde = { version = "*", features = ["derive"] }
risc0-zkvm = "*"
risc0-binfmt = "*"
