[package]
name = "probe-web-core"
version = "0.1.0"
edition = "2021"
publish = false

[dependencies]
object = { version = "=0.37.3", default-features = false, features = ["read_core", "elf", "unaligned"] }
wasm-bindgen = "=0.2.130"
wasm-bindgen-futures = "=0.4.80"
js-sys = "=0.3.107"
web-sys = { version = "=0.3.107", features = ["WebSocket", "Worker"] }
console_error_panic_hook = "=0.1.7"
