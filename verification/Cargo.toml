[package]
name = "handy"
version = "0.1.0"
edition = "2021"
publish = false

[dependencies]
ferrous-opencc = "*"
serde = { version = "1", features = ["derive"] }
