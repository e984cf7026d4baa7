[package]
name = "tokio2"
version = "0.1.0"
edition = "2021"
publish = false

[dependencies]
async-channel = "*"
