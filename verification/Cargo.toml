[package]
name = "xla_types"
version = "0.1.0"
edition = "2021"
publish = false

[dependencies]
libc = "0.2"
num-derive = "0.4"
num-traits = "0.2"
