[package]
name = "zenoh_flow_python"
version = "0.1.0"
edition = "2021"
publish = false

[dependencies]
uhlc = "*"
serde_json = "*"
libloading = "*"
pyo3 = "*"
