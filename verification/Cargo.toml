[package]
name = "qr_codec"
version = "0.1.0"
edition = "2021"
publish = false

[dependencies]
fast_qr = { version = "*", features = ["image"] }
image = "*"
quircs = "*"
