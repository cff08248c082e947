[package]
name = "ledger_wallet"
version = "0.1.0"
edition = "2021"
publish = false

[dependencies]
hex = "0.4"
secp256k1 = { version = "0.29", features = ["rand-std"] }
sha2 = "0.10"
