[package]
name = "pywr"
version = "0.1.0"
edition = "2021"
publish = false

[dependencies]
pyo3 = "0.18"
chrono = { version = "0.4", default-features = false }
float-cmp = "0.9"
ndarray = "0.15"
