[package]
name = "modkit"
version = "0.1.0"
edition = "2021"
publish = false

[dependencies]
anyhow = "1"
async-trait = "0.1"
axum = "0.8"
http = "1"
matchit = "0.8"
thiserror = "2"
tokio = { version = "1", features = ["macros", "rt", "sync"] }
tokio-util = "0.7"
tracing = "0.1"
utoipa = "5"
