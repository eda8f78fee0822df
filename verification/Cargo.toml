[package]
name = "holiday_lookup"
version = "0.1.0"
edition = "2021"
publish = false

[dependencies]
lambda_http = "*"
reqwest = { version = "*", features = ["json"] }
serde = { version = "1", features = ["derive"] }
serde_json = "1"
tokio = { version = "1", features = ["macros", "rt-multi-thread"] }
tracing = "0.1"
tracing-subscriber = "0.3"
url = "2"
