[package]
name = "pubky"
version = "0.1.0"
edition = "2021"
publish = false

[dependencies]
axum = "=0.8.9"
crux_core = "=0.20.0"
heed = "=0.23.0"
js-sys = "=0.3.106"
pkarr = "=8.1.0"
pubky-common = "=0.16.2"
reqwest = { version = "=0.13.5", features = ["cookies"] }
serde = { version = "=1.0.229", features = ["derive"] }
thiserror = "=2.0.21"
tracing = "=0.1.44"
url = "=2.5.8"
wasm-bindgen = "=0.2.129"
