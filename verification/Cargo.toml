[package]
name = "edenapi"
version = "0.1.0"
edition = "2021"
publish = false

[dependencies]
url = "2"
itertools = "0.11"
serde_json = "1"
serde = "1"
serde_cbor = "0.11"
chrono = "0.4"
tokio = { version = "1", default-features = false, features = ["time"] }
futures = "0.3"
tracing = "0.1"
