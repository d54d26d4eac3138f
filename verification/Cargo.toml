[package]
name = "installer"
version = "0.1.0"
edition = "2021"
publish = false

[dependencies]
url = "2"
shell-escape = "0.1"
