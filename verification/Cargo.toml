[package]
name = "libriichi"
version = "0.1.0"
edition = "2021"
publish = false

[dependencies]
rand = "0.8"
rand_chacha = "0.3"
wasm-bindgen = "0.2"
