[package]
name = "dust-cleaner"
version = "0.1.0"
edition = "2021"
publish = false

[dependencies]
anyhow = "1"
bitcoincore-rpc = "0.19"
clap = { version = "4", features = ["derive", "env"] }
serde_json = "1"
