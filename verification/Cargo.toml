[package]
name = "rustls_listener"
version = "0.1.0"
edition = "2021"
publish = false

[dependencies]
futures-util = "0.3"
tokio = { version = "1", features = ["net", "rt", "io-util", "sync"] }
tokio-rustls = { version = "0.26", default-features = false, features = ["ring"] }
tracing = "0.1"
