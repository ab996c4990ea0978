[package]
name = "spade_core"
version = "0.1.0"
edition = "2021"
publish = false

[dependencies]
spade = "*"
serde = { version = "*", features = ["derive"] }
serde_json = "*"
pyo3 = "*"
