[package]
name = "mcp_center"
version = "0.1.0"
edition = "2021"
publish = false

[dependencies]
axum = "0.8"
sqlx = { version = "0.8", default-features = false, features = ["runtime-tokio", "postgres", "uuid", "chrono", "json", "derive"] }
serde = { version = "1", features = ["derive"] }
serde_json = "1"
tokio = { version = "1", features = ["rt-multi-thread", "macros", "sync"] }
uuid = { version = "1", features = ["v4", "serde"] }
tracing = "0.1"
http = "1"
tower-http = { version = "0.6", features = ["cors"] }
bytes = "1"
http-body-util = "0.1"
hyper = "1"
tokio-stream = "0.1"
bitflags = "2"
