[package]
name = "webhook_relay"
version = "0.1.0"
edition = "2021"
publish = false

[dependencies]
hex = "0.4"
hmac = "0.12"
sha2 = "0.10"
serde_json = "1.0"
hyper = { version = "0.14", default-features = false, features = ["http1", "server", "client", "tcp", "runtime"] }
tokio = { version = "1", default-features = false, features = ["rt", "net", "time", "macros"] }
