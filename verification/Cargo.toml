[package]
name = "alwayson_model"
version = "0.1.0"
edition = "2021"
publish = false

[dependencies]
bytes = "1"
indexmap = "2"
pyo3 = "0.22"
serde_json = { version = "1", features = ["preserve_order"] }
