[package]
name = "webtale"
version = "0.1.0"
edition = "2021"
publish = false

[dependencies]
rand = "0.8"
rustpython-vm = "0.3"
