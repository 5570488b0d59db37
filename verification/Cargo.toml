[package]
name = "listmatica"
version = "0.1.0"
edition = "2021"
publish = false

[dependencies]
csv = "1"
iced = { version = "0.13", default-features = false, features = ["tiny-skia"] }
rfd = "0.15"
