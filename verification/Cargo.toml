[package]
name = "goose"
version = "0.1.0"
edition = "2021"
publish = false

[dependencies]
flume = "0.10"
regex = "1"
serde = { version = "1", features = ["derive"] }
serde_json = "1"
tokio = { version = "1", features = ["fs", "io-util", "macros", "rt-multi-thread", "time"] }
