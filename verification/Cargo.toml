[package]
name = "crdt_list_adapter"
version = "0.1.0"
edition = "2021"
publish = false

[dependencies]
mycelial-crdt = "=0.2.5"
num = { version = "=0.4.3", features = ["serde"] }
serde_json = "1"
wasm-bindgen = "0.2"
js-sys = "0.3"
console_error_panic_hook = "0.1"
