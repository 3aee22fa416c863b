[package]
name = "miden_tx_kernel"
version = "0.1.0"
edition = "2021"
publish = false

[dependencies]
miden-objects = "0.1"
