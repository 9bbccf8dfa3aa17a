[package]
name = "abi_dispatch"
version = "0.1.0"
edition = "2021"
publish = false

[dependencies]
fe-parser = "*"
hex = "0.4"
tiny-keccak = { version = "2.0", features = ["keccak"] }
yultsur = "*"
