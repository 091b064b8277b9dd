[package]
name = "pacthash"
version = "0.1.0"
edition = "2021"
publish = false

[dependencies]
bitcoin = "*"
rustc-serialize = "*"
rand = "*"
getopts = "*"
secp256k1 = "*"
