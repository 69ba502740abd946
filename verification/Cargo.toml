[package]
name = "linera_local_node"
version = "0.1.0"
edition = "2021"
publish = false

[dependencies]
rand = "=0.8.8"
futures = "=0.3.34"
tracing = "=0.1.44"
thiserror = "=1.0.69"
lru = "=0.12.5"
tokio = { version = "1", features = ["rt", "sync"] }
tokio-stream = "0.1"
