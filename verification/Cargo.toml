[package]
name = "near_jsonrpc"
version = "0.1.0"
edition = "2021"
publish = false

[dependencies]
base64 = "0.22"
bs58 = "0.5"
sha2 = "0.10"
serde_json = "1.0"
