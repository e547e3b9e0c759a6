[package]
name = "sx_metrics"
version = "0.1.0"
edition = "2021"
publish = false

[dependencies]
antelope = "=0.2.0"
serde = { version = "=1.0.229", features = ["derive"] }
serde_json = "=1.0.154"
substreams = "0.5"
substreams-antelope = "0.1"
substreams-sink-prometheus = "0.1.9"
