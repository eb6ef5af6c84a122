[package]
name = "eventpipe"
version = "0.1.0"
edition = "2021"
publish = false

[dependencies]
axum = "=0.8.9"
rdkafka = "=0.39.0"
serde = { version = "=1.0.229", features = ["derive"] }
serde_json = "=1.0.151"
tokio = { version = "=1.53.2", features = ["full"] }
tokio-postgres = { version = "=0.7.18", features = ["with-serde_json-1"] }
tracing = "=0.1.44"
tracing-subscriber = { version = "=0.3.23", features = ["env-filter"] }
validator = "=0.21.0"
