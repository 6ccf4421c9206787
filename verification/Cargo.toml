[package]
name = "nginx-rs"
version = "0.1.0"
edition = "2021"
publish = false

[dependencies]
async-trait = "0.1"
lazy_static = "1"
tokio = { version = "1", features = ["rt-multi-thread", "sync"] }
