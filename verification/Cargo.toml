[package]
name = "simple_proxy"
version = "0.1.0"
edition = "2021"
publish = false

[dependencies]
anyhow = "=1.0.104"
async-trait = "=0.1.92"
http = "=1.5.0"
pingora = { version = "=0.5.0", features = ["proxy"] }
reqwest = { version = "=0.12.28", default-features = false }
tokio = { version = "=1.54.1", features = ["rt"] }
tracing = "=0.1.44"
tracing-subscriber = "=0.3.23"
