[package]
name = "rustls_wasm"
version = "0.1.0"
edition = "2021"
publish = false

[dependencies]
futures-rustls = "*"
futures-util = "*"
js-sys = "*"
pin-project-lite = "*"
thiserror = "*"
wasm-bindgen = "*"
wasm-streams = "*"
webpki-roots = "*"

[dependencies.web-sys]
version = "*"
features = ["ReadableStream", "WritableStream"]
