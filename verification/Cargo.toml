[package]
name = "gbrowse"
version = "0.1.0"
edition = "2021"
publish = false

[dependencies]
crossterm = "*"
native-tls = "*"
toml = "*"
unicode-width = "*"
url = "*"
