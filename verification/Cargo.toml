[package]
name = "zenoh-flow-python-operator-wrapper"
version = "0.1.0"
edition = "2021"
publish = false

[dependencies]
anyhow = "1"
async-trait = "0.1"
libloading = "0.7"
pyo3 = "0.18"
pyo3-asyncio = { version = "0.18", features = ["async-std-runtime"] }
serde_json = "1"
tracing = "0.1"
tracing-subscriber = "0.3"
zenoh-flow-nodes = "0.6.0-alpha"
