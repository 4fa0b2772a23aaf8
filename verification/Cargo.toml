[package]
name = "pymft"
version = "0.1.0"
edition = "2021"
publish = false

[dependencies]
mft = "*"
csv = "*"
pyo3 = "*"

[dev-dependencies]
serde_json = "*"
