[package]
name = "settings"
version = "0.1.0"
edition = "2021"
publish = false

[dependencies]
config = { version = "0.10", default-features = false, features = ["toml"] }
dirs = "*"
toml = "0.5"
