[package]
name = "v5sim"
version = "0.1.0"
edition = "2021"
publish = false

[dependencies]
anyhow = "=1.0.104"
base64 = "=0.22.1"
clap = { version = "=4.6.7", features = ["derive"] }
ctrlc = "=3.5.2"
embedded-graphics-core = "=0.4.1"
fs-err = "=3.3.2"
jsonl = "=4.0.1"
mint = "=0.5.9"
tinybmp = "=0.7.0"
vexide-simulator-protocol = "=0.2.1"
wasmparser = "=0.261.0"
wasmtime = "=48.0.5"
