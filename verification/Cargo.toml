[package]
name = "finance_helper"
version = "0.1.0"
edition = "2021"
publish = false

[dependencies]
rust_decimal = { version = "1", features = ["maths"] }
wasm-bindgen = "0.2"
