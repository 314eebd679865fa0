[package]
name = "delivery"
version = "0.1.0"
edition = "2021"
publish = false

[dependencies]
clap = "2.34.0"
rust-crypto = "0.2.36"
