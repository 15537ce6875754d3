[package]
name = "fabro-petri"
version = "0.1.0"
edition = "2021"
publish = false

[dependencies]
serde = "1"
serde_json = "1"
thiserror = "2"
tokio = { version = "1", features = ["fs", "rt"] }
tokio-util = "0.7"
tracing = "0.1"
