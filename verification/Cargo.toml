[package]
name = "pulse_stream"
version = "0.1.3"
edition = "2021"
publish = false

[dependencies]
directories = "5"
flume = "0.11"
serde = { version = "1", features = ["derive"] }
serde_json = "1"
tokio = { version = "1", features = ["rt", "time", "net"] }
