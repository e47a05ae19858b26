[package]
name = "zenith_core"
version = "0.1.0"
edition = "2021"
publish = false

[dependencies]
crossbeam = "=0.8.5"
wasmtime = "=48.0.5"
wasmtime-wasi = "=48.0.5"
arrow = { version = "=60.0.0", default-features = false, features = ["ffi"] }

[dev-dependencies]
wat = "=1.261.0"
