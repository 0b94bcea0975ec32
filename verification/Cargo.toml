[package]
name = "lk"
version = "0.1.0"
edition = "2021"
publish = false

[dependencies]
safe-mmio = "*"
log = "*"
