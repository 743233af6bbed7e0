[package]
name = "manta"
version = "0.1.0"
edition = "2021"
publish = false

[dependencies]
sp-weights = "=37.0.0"
sp-io = "*"
libsecp256k1 = "*"
