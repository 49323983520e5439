[package]
name = "keramics"
version = "0.1.0"
edition = "2021"
publish = false

[dependencies]
keramics-core = "*"
keramics-encodings = "*"
keramics-formats = "*"
keramics-datetime = "*"
