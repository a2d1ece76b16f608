[package]
name = "engine_aware"
version = "0.1.0"
edition = "2021"
publish = false

[dependencies]
cpython = "*"
log = "0.4"
