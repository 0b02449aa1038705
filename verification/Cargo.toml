[package]
name = "crypto_wallet"
version = "0.1.0"
edition = "2021"
publish = false

[dependencies]
hex = "0.4"
rand = "0.8"
secp256k1 = { version = "0.27", features = ["rand-std"] }
serde = { version = "1", features = ["derive"] }
serde_json = "1"
tokio = { version = "1", features = ["rt-multi-thread", "macros", "time"] }
web3 = { version = "0.19", default-features = false, features = ["http", "signing"] }
