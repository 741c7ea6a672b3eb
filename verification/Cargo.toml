[package]
name = "parquet_reader"
version = "0.1.0"
edition = "2021"
publish = false

[dependencies]
parquet2 = { version = "=0.17.2", default-features = false }
parquet-format-safe = "=0.2.4"
serde = "*"
serde_json = "*"
serde-wasm-bindgen = "*"
wasm-bindgen = "*"
