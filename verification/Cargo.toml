[package]
name = "barrita"
version = "0.1.0"
edition = "2021"
publish = false

[dependencies]
dirs = "=7.0.0"
rust-fuzzy-search = "=0.1.1"
serde = { version = "=1.0.229", features = ["derive"] }
serde_json = "=1.0.154"
toml = "=1.1.8"
chrono = "=0.4.45"
image = { version = "0.25", default-features = false, features = ["png", "jpeg", "bmp"] }
