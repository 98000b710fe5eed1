[package]
name = "simple_wallet"
version = "0.1.0"
edition = "2021"
publish = false

[dependencies]
secp256k1 = { version = "*", features = ["rand", "std"] }
sha2 = "*"
serde = { version = "*", features = ["derive"] }
serde_json = "*"
