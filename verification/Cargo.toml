[package]
name = "hollow_knight_save_parser"
version = "0.1.0"
edition = "2021"
publish = false

[dependencies]
aes = "*"
base64 = "*"
ecb = "*"
serde_json = "*"
