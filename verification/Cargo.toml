[package]
name = "synthscore"
version = "0.1.0"
edition = "2021"
publish = false

[dependencies]
base64 = "0.13"
image = "0.24"
serde = { version = "1", features = ["derive"] }
