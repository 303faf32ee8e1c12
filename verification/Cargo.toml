[package]
name = "wasm_bindgen_helper_macros"
version = "0.1.0"
edition = "2021"
publish = false

[dependencies]
quote = "=1.0.47"
syn = { version = "=1.0.109", features = ["full"] }
