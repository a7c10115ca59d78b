[package]
name = "isyswasfa-http"
version = "0.1.0"
edition = "2021"
publish = false

[dependencies]
wasmtime = { version = "=19.0.2", default-features = false, features = ["component-model"] }
wasmtime-wasi = { version = "=19.0.2", default-features = false }
anyhow = "=1.0.104"
async-trait = "=0.1.92"
futures = "=0.3.34"
