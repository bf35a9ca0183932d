[package]
name = "wasm_boundary"
version = "0.1.0"
edition = "2021"
publish = false

[dependencies]
wasmer-runtime-core = "=0.17.1"
