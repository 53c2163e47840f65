[package]
name = "ccs811"
version = "0.1.0"
edition = "2021"
publish = false

[dependencies]
rppal = "*"
