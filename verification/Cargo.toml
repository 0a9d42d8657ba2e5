[package]
name = "approx_cmp"
version = "0.1.0"
edition = "2021"
publish = false

[dependencies]
abs = "*"
zero = "*"
