[package]
name = "massa_sc_runtime"
version = "0.1.0"
edition = "2021"
publish = false

[dependencies]
wasmer = "=6.1.0"
wasmer-compiler-singlepass = "=6.1.0"
wasmer-middlewares = "=6.1.0"
base64 = "=0.13.1"

[dev-dependencies]
wat = "=1.247.0"
