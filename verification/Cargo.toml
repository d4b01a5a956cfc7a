[package]
name = "grpc_multiplex"
version = "0.1.0"
edition = "2021"
publish = false

[dependencies]
tokio = { version = "*", features = ["sync", "rt-multi-thread", "time"] }
futures = "*"
async-stream = "*"
log = "*"
yellowstone-grpc-client = "*"
yellowstone-grpc-proto = "*"
