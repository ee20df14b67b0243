[package]
name = "ledger_core"
version = "0.1.0"
edition = "2021"
publish = false

[dependencies]
rlp = "*"
sha3 = "*"
libsecp256k1 = "*"
multiproof-rs = "*"
