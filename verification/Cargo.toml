[package]
name = "nav_lambda"
version = "0.1.0"
edition = "2021"
publish = false

[dependencies]
tokio = { version = "1", features = ["full"] }

[dev-dependencies]
serde_json = "1"
