[package]
name = "rustracer"
version = "0.1.0"
edition = "2021"
publish = false

[dependencies]
serde = "1"
serde_json = "1"
image = { version = "0.24", default-features = false, features = ["png", "jpeg"] }
rulinalg = "0.4"
