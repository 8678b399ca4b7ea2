[package]
name = "membership_engine"
version = "0.1.0"
edition = "2021"
publish = false

[dependencies]
ruma = { version = "=0.17.0", features = ["signatures"] }
serde_json = "=1.0.151"
js_int = "=0.2.2"
tokio = { version = "=1.53.2", features = ["sync", "rt", "macros"] }
tracing = "=0.1.44"
