[package]
name = "cartesi_machine_json_rpc"
version = "0.1.0"
edition = "2021"
publish = false

[dependencies]
base64 = "0.21"
derive_builder = "0.12"
jsonrpsee = { version = "0.20", features = ["http-client"] }
serde = { version = "1", features = ["derive"] }
serde_json = "1"
