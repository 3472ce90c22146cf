[package]
name = "file_bytes_stream"
version = "0.1.0"
edition = "2021"
publish = false

[dependencies]
futures-util = "0.3"
hyper = { version = "0.14", features = ["stream"] }
tokio = { version = "1", features = ["fs"] }
