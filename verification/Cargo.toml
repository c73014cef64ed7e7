[package]
name = "rust_calculator"
version = "0.1.0"
edition = "2021"
publish = false

[dependencies]
meval = "0.2"
wasm-bindgen = "0.2"
