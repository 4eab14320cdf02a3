[package]
name = "poopy_snake"
version = "0.1.0"
edition = "2021"
publish = false

[dependencies]
wasm-bindgen = "0.2"
lol_alloc = "0.4"
