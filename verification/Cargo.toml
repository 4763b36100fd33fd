[package]
name = "nimiq-jsonrpc-derive"
version = "0.1.0"
edition = "2021"
publish = false

[dependencies]
nimiq-jsonrpc-server = "=0.5.0"
nimiq-jsonrpc-core = "=0.5.0"
proc-macro2 = "=1.0.107"
quote = "=1.0.47"
syn = { version = "=3.0.9", features = ["full"] }
serde = { version = "=1.0.229", features = ["derive"] }
serde_json = "=1.0.154"
