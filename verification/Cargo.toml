[package]
name = "platform"
version = "0.1.0"
edition = "2021"
publish = false

[dependencies]
hyper = { version = "0.14", features = ["full"] }
hyperlocal = "0.8"
tokio = { version = "1", features = ["full"] }
