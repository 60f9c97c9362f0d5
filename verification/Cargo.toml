[package]
name = "lily"
version = "0.1.0"
edition = "2021"
publish = false

[dependencies]
glam = "=0.34.1"
serde = { version = "=1.0.229", features = ["derive"] }
vizia = { version = "0.2", default-features = false }
