[package]
name = "tls_hot_reload"
version = "0.1.0"
edition = "2021"
publish = false

[dependencies]
futures-util = { version = "0.3", default-features = false, features = ["std"] }
openssl = "0.10"
percent-encoding = "2"
pin-project = "1"
tokio = { version = "1", features = ["io-util", "macros", "net", "rt"] }
tokio-openssl = "0.6"
tracing = "0.1"
