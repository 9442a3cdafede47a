[package]
name = "rpc_gateway"
version = "0.1.0"
edition = "2021"
publish = false

[dependencies]
serde = { version = "1", features = ["derive"] }
serde_json = "1"
jsonrpc = "*"
hyper = { version = "0.14", features = ["client", "http1", "tcp"] }
hyper-tls = "0.5"
async-tungstenite = { version = "*", features = ["tokio-runtime"] }
tokio = { version = "1", features = ["rt", "macros"] }
futures-util = "0.3"
