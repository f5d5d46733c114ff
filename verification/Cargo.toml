[package]
name = "sensor_history"
version = "0.1.0"
edition = "2021"
publish = false

[dependencies]
rand = "0.8"
prost = "*"
tokio = { version = "1", features = ["rt-multi-thread", "macros", "time", "sync"] }
zmq = "*"
