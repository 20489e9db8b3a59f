[package]
name = "bitcoind_client"
version = "0.1.0"
edition = "2021"
publish = false

[dependencies]
jsonrpc = "*"
serde = { version = "1", features = ["derive"] }
serde_json = "1"
corepc-types = "*"
