[package]
name = "bevy_playground_server"
version = "0.1.0"
edition = "2021"
publish = false

[dependencies]
axum = "0.5"
hyper = "0.14"
serde = { version = "1", features = ["derive"] }
tempfile = "3"
thiserror = "1"
tokio = { version = "1", features = ["full"] }
tower = "0.4"
tower-http = { version = "0.3", features = ["trace", "cors", "fs", "set-header"] }
tracing = "0.1"
tracing-subscriber = "0.3"

[dev-dependencies]
fnv = "1"
