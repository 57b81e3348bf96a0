[package]
name = "terrarium"
version = "0.1.0"
edition = "2021"
publish = false

[dependencies]
rppal = "*"
time = { version = "*", features = ["local-offset"] }
