[package]
name = "rag_admin"
version = "0.1.0"
edition = "2021"
publish = false

[dependencies]
uuid = "1"
urlencoding = "2"
serde = { version = "1", features = ["derive"] }
serde_json = "1"
wasm-bindgen = "0.2"
web-sys = { version = "0.3", features = ["EventSource", "MessageEvent", "Event"] }
