[package]
name = "fp12"
version = "0.1.0"
edition = "2021"
publish = false

[dependencies]
ark-bls12-381 = "0.4"
ark-ff = "0.4"
rand_core = "0.6"

[dev-dependencies]
ark-ec = "0.4"
ark-std = "0.4"
rand_xorshift = "0.3"
