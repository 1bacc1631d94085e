[package]
name = "insiculous_frogger"
version = "0.1.0"
edition = "2021"
publish = false

[dependencies]
log = "=0.4.35"
wasm-bindgen = "=0.2.130"
wasm-bindgen-futures = "=0.4.80"
