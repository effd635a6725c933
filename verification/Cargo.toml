[package]
name = "wallgallery"
version = "0.1.0"
edition = "2021"
publish = false

[dependencies]
md5 = "0.7"
serde_json = "1"
image = { version = "0.24", default-features = false, features = ["png", "jpeg"] }
walkdir = "2"
notify = "*"
dirs = "*"
