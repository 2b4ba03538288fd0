[package]
name = "evm_debugger"
version = "0.1.0"
edition = "2021"
publish = false

[dependencies]
ethers = { version = "2", default-features = false }
evm = "0.39"
hex = "0.4"
