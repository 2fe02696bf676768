[package]
name = "ledger"
version = "0.1.0"
edition = "2021"
publish = false

[dependencies]
anyhow = "*"
clap = { version = "*", features = ["derive"] }
csv = "*"
rust_decimal = "*"
serde = { version = "*", features = ["derive"] }
