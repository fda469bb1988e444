[package]
name = "tokio_smoltcp"
version = "0.1.0"
edition = "2021"
publish = false

[dependencies]
futures = "0.3"
managed = "0.8"
parking_lot = "0.12"
pin-project-lite = "0.2"
smoltcp = "0.8"
tokio = { version = "1", features = ["rt", "rt-multi-thread", "net", "time", "sync", "io-util", "macros"] }
tokio-util = { version = "0.7", features = ["codec", "net"] }
