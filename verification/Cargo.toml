[package]
name = "vertigo_forms"
version = "0.1.0"
edition = "2021"
publish = false

[dependencies]
vertigo = "*"
base64 = "*"
either = "*"
