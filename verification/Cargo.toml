[package]
name = "oci-publish"
version = "0.1.0"
edition = "2021"
publish = false

[dependencies]
anyhow = "=1.0.104"
oci-client = "=0.17.0"
oci-wasm = "=0.6.0"
olpc-cjson = "=0.1.4"
pyo3 = { version = "=0.22.6", features = ["extension-module", "abi3-py38"] }
serde = "=1.0.229"
serde_json = "=1.0.154"
tokio = { version = "=1.54.1", features = ["rt-multi-thread", "fs"] }
