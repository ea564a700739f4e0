[package]
name = "vit"
version = "0.1.0"
edition = "2021"
publish = false

[dependencies]
burn = { version = "=0.14.0", default-features = false, features = ["std", "ndarray"] }
