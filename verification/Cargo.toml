[package]
name = "unifloat"
version = "0.1.0"
edition = "2021"
publish = false

[dependencies]
twofloat = "=0.8.4"
