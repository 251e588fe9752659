[package]
name = "ssh_cipher"
version = "0.1.0"
edition = "2021"
publish = false

[dependencies]
aes-gcm = "0.10"
aes = "0.8"
ctr = "0.9"
tokio = { version = "1", features = ["io-util", "rt", "rt-multi-thread", "macros"] }
