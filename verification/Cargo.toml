[package]
name = "rodbus"
version = "0.1.0"
edition = "2021"
publish = false

[dependencies]
rx509 = "0.2"
tokio = { version = "1", features = ["net", "rt", "sync", "time"] }
tokio-rustls = { version = "0.23", features = ["dangerous_configuration"] }
tracing = "0.1"
