[package]
name = "configurator"
version = "0.1.0"
edition = "2021"
publish = false

[dependencies]
anyhow = "1"
base32 = "0.4"
base64 = "0.13"
bitcoincore-rpc = "*"
nix = "0.26"
rand = "0.8"
serde = { version = "1", features = ["derive"] }
serde_json = "1"
serde_yaml = "0.8"
