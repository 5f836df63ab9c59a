[package]
name = "tract_bridge"
version = "0.1.0"
edition = "2021"
publish = false

[dependencies]
tract-core = "=0.23.8"
tract-hir = "=0.23.8"
tract-onnx = "=0.23.8"
tract-tensorflow = "=0.23.8"
wasm-bindgen = "=0.2.129"
js-sys = "=0.3.106"
console_error_panic_hook = "=0.1.7"

[dev-dependencies]
prost = "=0.14.4"
