[package]
name = "tmuxrs"
version = "0.1.0"
edition = "2021"
publish = false

[dependencies]
serde_yaml = "*"
shellexpand = "*"
dirs = "*"

[dev-dependencies]
tempfile = "*"
