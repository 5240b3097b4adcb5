[package]
name = "file_to_png"
version = "0.1.0"
edition = "2021"

[dependencies]
image = { version = "*", default-features = false, features = ["png"] }
