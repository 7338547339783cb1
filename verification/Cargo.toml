[package]
name = "aqua_gateway"
version = "0.1.0"
edition = "2021"
publish = false

[dependencies]
base64 = "0.22"
console_error_panic_hook = "0.1"
js-sys = "0.3"
serde_json = "1"
wasm-bindgen = "0.2"
worker = { version = "0.8.5", features = ["d1"] }
