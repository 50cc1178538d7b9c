[package]
name = "hydrobot"
version = "0.1.0"
edition = "2021"
publish = false

[dependencies]
sled = "*"
serialport = { version = "*", default-features = false }
