[package]
name = "shard_gateway"
version = "0.1.0"
edition = "2021"
publish = false

[dependencies]
hex = "*"
blake2-rfc = "*"
bech32 = "*"
serde_json = "*"
