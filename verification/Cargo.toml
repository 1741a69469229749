[package]
name = "secure_share"
version = "0.1.0"
edition = "2021"
publish = false

[dependencies]
rsa = "0.9"
aes-gcm = "0.10"
sha2 = "0.10"
argon2 = "0.5"
rand = "0.8"
uuid = { version = "1", features = ["v4"] }
chrono = "0.4"
validator = "*"
