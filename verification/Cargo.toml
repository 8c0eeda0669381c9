[package]
name = "capture_pipeline"
version = "0.1.0"
edition = "2021"
publish = false

[dependencies]
tokio = { version = "1", features = ["sync"] }
cpal = "0.15"
