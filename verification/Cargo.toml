[package]
name = "ticket_api"
version = "0.1.0"
edition = "2021"
publish = false

[dependencies]
uuid = { version = "*", features = ["v4", "serde"] }
axum = "*"
serde = { version = "*", features = ["derive"] }
serde_json = "*"
tokio = { version = "*", features = ["rt-multi-thread", "macros", "net", "sync"] }
tower = "*"
tower-http = { version = "*", features = ["cors"] }
tracing-subscriber = "*"
