[package]
name = "datafusion_bridge"
version = "0.1.0"
edition = "2021"
publish = false

[dependencies]
arrow = "*"
pyo3 = "*"
numpy = "*"
thiserror = "*"
