[package]
name = "validator_config"
version = "0.1.0"
edition = "2021"
publish = false

[dependencies]
url = "2"
hyper = { version = "0.14", default-features = false }
clap = "2"
dirs = "*"
serde = "1"
serde_derive = "1"
fixed-hash = "*"
