[package]
name = "wapc"
version = "0.1.0"
edition = "2021"
publish = false

[dependencies]
serde = { version = "=1.0.229", features = ["derive"] }
serde_json = "=1.0.154"
vino-codec = "=0.9.0"
rmp = "=0.8.10"
log = "=0.4.35"
wasmtime = "=0.35.3"
wasmtime-wasi = "=0.35.3"
wasm3 = "*"
