[package]
name = "guest_shim"
version = "0.1.0"
edition = "2021"
publish = false

[dependencies]
cargo_toml = "*"
toml = "*"
simple-error = "*"
