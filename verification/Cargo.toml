[package]
name = "angel_sse"
version = "0.1.0"
edition = "2021"
publish = false

[dependencies]
axum = "*"
chrono = "*"
futures = "*"
tokio = { version = "*", features = ["macros", "rt-multi-thread", "net", "time"] }
tokio-stream = { version = "*", features = ["time"] }
tower-http = { version = "*", features = ["cors"] }
