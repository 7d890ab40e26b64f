[package]
name = "plot"
version = "0.1.0"
edition = "2021"
publish = false

[dependencies]
emath = "0.17"
epaint = "0.17"
serde = { version = "1", features = ["derive"] }
