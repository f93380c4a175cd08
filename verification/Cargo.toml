[package]
name = "my_algo"
version = "0.1.0"
edition = "2021"
publish = false

[dependencies]
algonaut = "*"
anyhow = "1"
data-encoding = "2"
log = "0.4"
serde = { version = "1", features = ["derive"] }
serde_json = "1"
wasm-bindgen = { version = "0.2", features = ["serde-serialize"] }
