[package]
name = "wasm-rs-async-executor"
version = "0.9.0"
edition = "2021"
publish = false

[dependencies]
futures = "0.3"
pin-project = "1"
wasm-bindgen = "0.2"
wasm-bindgen-futures = "0.4"
js-sys = "0.3"
web-sys = { version = "0.3", features = ["Window", "Document", "Element", "Response", "IdleDeadline"] }
wasm-rs-dbg = "*"
