[package]
name = "jxl_stream"
version = "0.1.0"
edition = "2021"
publish = false

[dependencies]
libloading = "*"
image = { version = "*", default-features = false, features = ["png"] }
