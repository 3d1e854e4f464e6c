[package]
name = "rustman"
version = "0.1.0"
edition = "2021"
publish = false

[dependencies]
urlencoding = "*"
reqwest = { version = "*", default-features = false, features = ["blocking"] }
