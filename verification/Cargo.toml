[package]
name = "sss_forge"
version = "0.1.0"
edition = "2021"
publish = false

[dependencies]
spl-token-2022 = "*"
