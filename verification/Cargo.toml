[package]
name = "nft"
version = "0.1.0"
edition = "2021"
publish = false

[dependencies]
cosmwasm-std = "1.5"
cosmwasm-schema = "1.5"
coreum-wasm-sdk = "=0.2.4"
cw2 = "1.1"
cw-ownable = "0.5.1"
cw-storage-plus = "1.2"
schemars = "0.8"
serde = { version = "1.0", features = ["derive"] }
