[package]
name = "wasm_obs"
version = "0.1.0"
edition = "2021"
publish = false

[dependencies]
anyhow = "=1.0.104"
opentelemetry = "=0.33.0"
opentelemetry-otlp = "=0.33.0"
opentelemetry_sdk = "=0.33.0"
tokio = { version = "=1.53.2", features = ["sync"] }
uuid = { version = "=1.27.0", features = ["v4"] }
wasmtime = { version = "=48.0.5", default-features = false, features = ["runtime", "async", "std"] }
