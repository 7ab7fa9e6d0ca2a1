[package]
name = "cita_client"
version = "0.1.0"
edition = "2021"
publish = false

[dependencies]
failure = "0.1"
futures = "0.1"
hex = "0.3"
hyper = "0.12"
protobuf = "2"
serde = { version = "1", features = ["derive"] }
serde_json = "1"
tokio = "0.1"
uuid = { version = "0.6", features = ["v4"] }
