[package]
name = "iota_addresses"
version = "0.1.0"
edition = "2021"
publish = false

[dependencies]
bee-message = "0.1"
blake2 = "0.9"
slip10 = "0.4"
bech32 = "0.8"
