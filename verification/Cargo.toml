[package]
name = "tvm_emu"
version = "0.1.0"
edition = "2021"
publish = false

[dependencies]
tycho-types = "=0.3.5"
tycho-vm = { version = "=0.3.7", features = ["tracing"] }
tycho-executor = "=0.3.7"
num-bigint = "=0.4.8"
anyhow = "=1.0.104"
serde = { version = "=1.0.229", features = ["derive"] }
serde_json = "=1.0.151"
tracing = "=0.1.44"
ahash = "=0.8.12"
libc = "=0.2.190"
