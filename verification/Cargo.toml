[package]
name = "wasm2"
version = "0.1.0"
edition = "2021"
publish = false

[dependencies]
wasmi = "*"
libflate = "*"
cosmwasm-std = "*"
serde-json-wasm = "*"

[dev-dependencies]
wat = "*"
