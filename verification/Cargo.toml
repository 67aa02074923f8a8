[package]
name = "s2c"
version = "0.1.0"
edition = "2021"
publish = false

[dependencies]
prost = "*"
rand = "*"
thiserror = "2"
tokio = { version = "1", features = ["full"] }
tokio-util = { version = "0.7", features = ["rt"] }
tracing = "0.1"
uuid = { version = "1", features = ["v4"] }
