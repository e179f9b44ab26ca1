[package]
name = "cql_marshal"
version = "0.1.0"
edition = "2021"
publish = false

[dependencies]
anyhow = "1"
pyo3 = "0.18"
pyo3-asyncio = { version = "0.18", features = ["tokio-runtime"] }
scylla = "0.8"
uuid = "1"
