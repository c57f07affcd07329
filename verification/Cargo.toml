[package]
name = "metrics_server"
version = "0.1.0"
edition = "2021"
publish = false

[dependencies]
prometheus = "*"
hyper = { version = "0.14", features = ["full"] }
