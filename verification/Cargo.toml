[package]
name = "zerovault"
version = "0.1.0"
edition = "2021"
publish = false

[dependencies]
aes-gcm = "0.10"
anyhow = "1"
argon2 = "0.5"
clap = { version = "4", features = ["derive"] }
rand = "0.8"
rpassword = "7"
zeroize = "1"
