[package]
name = "voice_gateway"
version = "0.1.0"
edition = "2021"
publish = false

[dependencies]
base64 = "*"
tokio = { version = "*", features = ["rt-multi-thread", "net", "time", "sync", "io-util", "macros"] }
hyper = { version = "*", features = ["http1", "server"] }
hyper-util = { version = "*", features = ["tokio"] }
http-body-util = "*"
fastwebsockets = { version = "*", features = ["upgrade"] }
futures-util = "*"
futures-concurrency = "*"
rubato = "*"

[dev-dependencies]
serde_json = "*"
