[package]
name = "zkit"
version = "0.1.0"
edition = "2021"
publish = false

[dependencies]
halo2_proofs = "0.3"
hex = "0.4"
rand = "0.8"
