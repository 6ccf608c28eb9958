[package]
name = "stic"
version = "0.1.0"
edition = "2021"
publish = false

[dependencies]
openssl = "0.10"
rand = "0.8"
zeroize = "1"
tar = "0.4"
rpassword = "7"
