[package]
name = "merkle_keys"
version = "0.1.0"
edition = "2021"
publish = false

[dependencies]
curve25519-dalek = "3"
sha2 = "0.9"
parity-scale-codec = "2"
