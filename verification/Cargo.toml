[package]
name = "connect_bridge"
version = "0.1.0"
edition = "2021"
publish = false

[dependencies]
serde_json = "*"
serde = { version = "*", features = ["derive"] }
tokio = { version = "*", features = ["net", "rt-multi-thread", "time", "io-util"] }
tonic = "*"
tower = { version = "*", features = ["util"] }
hyper-util = { version = "*", features = ["tokio"] }
once_cell = "*"
