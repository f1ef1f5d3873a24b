[package]
name = "miden_swapp"
version = "0.1.0"
edition = "2021"
publish = false

[dependencies]
miden-protocol = { version = "=0.13.3", features = ["testing"] }
miden-standards = "=0.13.3"
miden-core = "=0.20.6"
miden-crypto = "=0.19.8"
miden-mast-package = "=0.20.6"
