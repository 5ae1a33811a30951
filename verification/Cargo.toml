[package]
name = "letterboxd"
version = "0.4.0"
edition = "2021"
publish = false

[dependencies]
rust-crypto = "0.2"
hex = "0.4"
uuid = { version = "1", features = ["v4"] }
hyper = { version = "1", features = ["client", "http1"] }
hyper-tls = "0.6"
hyper-util = { version = "0.1", features = ["client-legacy", "http1", "tokio"] }
futures = "0.3"
serde = { version = "1", features = ["derive"] }
serde_json = "1"
serde_url_params = "0.2"
