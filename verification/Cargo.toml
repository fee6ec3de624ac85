[package]
name = "ibc_telemetry"
version = "0.1.0"
edition = "2021"
publish = false

[dependencies]
dashmap = "5.5"
moka = { version = "0.12", features = ["sync"] }
opentelemetry = { version = "0.20", features = ["metrics"] }
opentelemetry_sdk = { version = "0.20", features = ["metrics"] }
opentelemetry-prometheus = "0.13"
prometheus = "0.13"
tendermint = "*"
ibc-relayer-types = "*"
