[package]
name = "memory_game"
version = "0.1.0"
edition = "2021"
publish = false

[dependencies]
console_error_panic_hook = "0.1"
dominator = "0.5"
futures = "0.3"
futures-signals = "0.3"
gloo-timers = { version = "0.2", features = ["futures"] }
once_cell = "1"
rand = "0.8"
wasm-bindgen = "0.2"
wasm-bindgen-futures = "0.4"
