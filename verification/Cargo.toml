[package]
name = "h2_server"
version = "0.1.0"
edition = "2021"
publish = false

[dependencies]
http-body = "=1.1.0"
hyper = { version = "=1.12.0", features = ["http2", "server"] }
hyper-util = { version = "=0.1.21", features = ["tokio"] }
rustls = { version = "=0.23.46", default-features = false, features = ["ring", "std", "logging", "tls12"] }
tokio = { version = "=1.54.1", features = ["net", "sync", "time", "rt", "rt-multi-thread", "macros", "io-util"] }
tokio-rustls = { version = "=0.26.6", default-features = false, features = ["ring", "logging", "tls12"] }
tracing = "=0.1.44"

[dev-dependencies]
hyper = { version = "=1.12.0", features = ["client", "http2", "server"] }
