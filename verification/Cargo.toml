[package]
name = "hotdog"
version = "0.1.0"
edition = "2021"
publish = false

[dependencies]
dioxus = { version = "=0.6.3", features = ["web"] }
dioxus-logger = "=0.6.2"
log = "=0.4.34"
reqwest = { version = "=0.12.28", default-features = false, features = ["json"] }
serde = { version = "=1.0.229", features = ["derive"] }
tracing = "=0.1.44"
wasm-bindgen-futures = "=0.4.79"

[dev-dependencies]
serde_json = "=1.0.154"
