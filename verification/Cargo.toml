[package]
name = "delta_words"
version = "0.1.0"
edition = "2021"
publish = false

[dependencies]
neon = "*"
serde_json = "1"
voca_rs = "1"
