[package]
name = "evm_engine"
version = "0.1.0"
edition = "2021"
publish = false

[dependencies]
hex = "0.4"
rlp = "0.5"

[dev-dependencies]
rand = "0.8"
