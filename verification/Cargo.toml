[package]
name = "ollama_core"
version = "0.1.0"
edition = "2021"
publish = false

[dependencies]
serde_json = "*"
serde = { version = "*", features = ["derive"] }
axum = "*"
tokio = { version = "*", features = ["full"] }
reqwest = { version = "*", default-features = false, features = ["json", "stream"] }
futures = "*"
tokio-util = { version = "*", features = ["codec", "io"] }
tower-http = { version = "*", features = ["fs", "cors"] }
async-stream = "*"
