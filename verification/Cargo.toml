[package]
name = "ramp"
version = "0.1.0"
edition = "2021"
publish = false

[dependencies]
regex = "1"
image = { version = "0.25", default-features = false, features = ["png", "ico"] }
