[package]
name = "cryptcore"
version = "0.1.0"
edition = "2021"
publish = false

[dependencies]
rust-crypto = "*"
rust-argon2 = "*"
rand = "0.8"
