[package]
name = "sandbox_bridge"
version = "0.1.0"
edition = "2021"
publish = false

[dependencies]
wasmer-runtime = "*"
winapi = { version = "0.3", features = ["fileapi", "winnt", "minwindef"] }
