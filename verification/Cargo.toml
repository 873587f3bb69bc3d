[package]
name = "name_registry"
version = "0.1.0"
edition = "2021"
publish = false

[dependencies]
sp-io = "*"
sp-std = "*"
frame-support = "*"
frame-system = "*"
