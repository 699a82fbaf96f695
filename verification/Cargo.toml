[package]
name = "memory_images"
version = "0.1.0"
edition = "2021"
publish = false

[dependencies]
anyhow = "1"
memfd = "*"
region = "*"
rustix = { version = "*", features = ["fs"] }
wasmtime-environ = "0.34"
