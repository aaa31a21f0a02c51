[package]
name = "ici_tool"
version = "0.1.0"
edition = "2021"
publish = false

[dependencies]
buffer-graphics-lib = "*"
ici-files = "*"
graphics-shapes = "*"
image = { version = "*", default-features = false, features = ["png"] }
clap = { version = "*", features = ["derive"] }
