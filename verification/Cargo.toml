[package]
name = "fastwebsockets"
version = "0.1.0"
edition = "2021"
publish = false

[dependencies]
simdutf8 = "*"
rand = "0.8"
sha1 = "*"
base64 = "*"
tokio = { version = "*", features = ["full"] }
