[package]
name = "uap_rust"
version = "0.1.0"
edition = "2021"
publish = false

[dependencies]
regex = "1"
yaml-rust = "0.4"
semver-parser = "0.9"
once_cell = "1"
