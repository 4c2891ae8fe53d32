[package]
name = "bip_39"
version = "0.1.0"
edition = "2021"
publish = false

[dependencies]
rust-crypto = "0.2"
bs58 = "*"
hex = "*"
rand = "*"
rpassword = "*"
sha2 = "*"
hmac = "*"
pbkdf2 = "*"
