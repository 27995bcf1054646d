[package]
name = "turso_udf"
version = "0.1.0"
edition = "2021"
publish = false

[dependencies]
jni = "=0.21.1"
libloading = "=0.8.9"
napi = { version = "=3.16.1", features = ["napi6"] }
pyo3 = { version = "=0.26.0", features = ["abi3-py39", "extension-module"] }
tracing = "=0.1.44"
