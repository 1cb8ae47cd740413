[package]
name = "canonicaljson"
version = "0.1.0"
edition = "2021"
publish = false

[dependencies]
canonical_json = "*"
pyo3 = "0.21"
serde_json = "1"
