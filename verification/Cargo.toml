[package]
name = "accumulator_bridge"
version = "0.1.0"
edition = "2021"
publish = false

[dependencies]
anyhow = "=1.0.104"
futures-lite = "=2.6.1"
serde_json = "=1.0.154"
tokio = { version = "=1.54.1", features = ["full"] }
wasi = "=0.12.1"
wasi-async-runtime = "=0.1.2"
wasi-preview1-component-adapter-provider = "=24.0.13"
wasmtime = "=24.0.13"
wasmtime-wasi = "=24.0.13"
wit-bindgen = "=0.30.0"
wit-component = "=0.215.0"
