[package]
name = "brotli_stream"
version = "0.1.0"
edition = "2021"
publish = false

[dependencies]
brotli = "=9.0.0"
serde = { version = "=1.0.229", features = ["derive"] }
serde_json = "=1.0.151"
wasm-bindgen = { version = "=0.2.129", features = ["serde-serialize"] }
console_error_panic_hook = "=0.1.7"
wee_alloc = "=0.4.5"
