[package]
name = "pgml_api"
version = "0.1.0"
edition = "2021"
publish = false

[dependencies]
ndarray = "=0.15.6"
pgx = { version = "=0.7.4", default-features = false, features = ["pg15"] }
pyo3 = { version = "=0.17.3", features = ["auto-initialize"] }
serde_json = { version = "=1.0.154", features = ["float_roundtrip"] }
