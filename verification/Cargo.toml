[package]
name = "matrix_bridge"
version = "0.1.0"
edition = "2021"
publish = false

[dependencies]
matrix-sdk = { version = "0.18", default-features = false }
once_cell = "=1.21.4"
tokio = { version = "=1.54.1", features = ["rt-multi-thread", "time"] }
