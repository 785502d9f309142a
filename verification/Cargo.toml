[package]
name = "cuda_oxide"
version = "0.1.0"
edition = "2021"
publish = false

[dependencies]
anyhow = "1"
pliron = "*"
serde = { version = "1", features = ["derive"] }
