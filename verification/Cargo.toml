[package]
name = "xnft_mock"
version = "0.1.0"
edition = "2021"
publish = false

[dependencies]
polkadot-parachain-primitives = "=24.0.0"
sp-runtime = "*"
