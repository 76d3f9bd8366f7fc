[package]
name = "convert_js"
version = "0.1.0"
edition = "2021"
publish = false

[dependencies]
darling = "0.13"
syn = { version = "1", features = ["full", "extra-traits"] }
quote = "1"
proc-macro2 = "1"
wasm-bindgen = "0.2"
js-sys = "0.3"
shrinkwraprs = "0.3"
