[package]
name = "oracle_chain"
version = "0.1.0"
edition = "2021"
publish = false

[dependencies]
starlark = "=0.9.0"
allocative = "=0.3.0"
