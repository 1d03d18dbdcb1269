[package]
name = "xelis_core"
version = "0.1.0"
edition = "2021"
publish = false

[dependencies]
blake3 = "1"
merlin = "3"
