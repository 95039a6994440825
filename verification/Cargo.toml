[package]
name = "sm_glue"
version = "0.1.0"
edition = "2021"
publish = false

[dependencies]
wasm-encoder = "*"

[dev-dependencies]
wasmparser = "*"
