[package]
name = "air"
version = "0.1.0"
edition = "2021"
publish = false

[dependencies]
directories = "*"
serde = { version = "1", features = ["derive"] }
tracing = "0.1"
