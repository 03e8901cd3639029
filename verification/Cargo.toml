[package]
name = "cumulus_consensus"
version = "0.1.0"
edition = "2021"
publish = false

[dependencies]
futures = "0.1"
log = "0.4"
parity-codec = "3.5"
polkadot-primitives = "*"
