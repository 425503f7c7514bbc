[package]
name = "msi_wasm"
version = "0.1.0"
edition = "2021"
publish = false

[dependencies]
msi = "*"
serde = { version = "1", features = ["derive"] }
serde-wasm-bindgen = "*"
wasm-bindgen = "*"
