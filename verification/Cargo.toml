[package]
name = "wasm_bpf"
version = "0.1.0"
edition = "2021"
publish = false

[dependencies]
anyhow = "=1.0.104"
clap = { version = "=4.6.7", features = ["derive"] }
flexi_logger = "=0.31.10"
libbpf-rs = "=0.27.2"
log = "=0.4.34"
wasmtime = "=47.0.4"
wasmtime-wasi = "=47.0.4"
