[package]
name = "wasmbet_contract_dice"
version = "0.1.0"
edition = "2021"
publish = false

[dependencies]
cosmwasm-std = "0.10"
cosmwasm-storage = "0.10"
schemars = "0.7"
serde = { version = "1.0", default-features = false, features = ["derive"] }
serde-json-wasm = "0.2"
sha2 = "0.9"
