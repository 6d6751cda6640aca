[package]
name = "hephaestus"
version = "0.1.0"
edition = "2021"
publish = false

[dependencies]
anyhow = "*"
async-trait = "*"
axum = "*"
bollard = "*"
config = { version = "*", default-features = false, features = ["toml", "json"] }
futures = "*"
num-traits = "*"
prometheus = "*"
serde = { version = "*", features = ["derive"] }
serde_json = "*"
tokio = { version = "*", features = ["full"] }
toml = "*"
tower = "*"
tower-http = { version = "*", features = ["catch-panic", "normalize-path", "request-id", "timeout", "trace"] }
tracing = "*"
tracing-appender = "*"
tracing-subscriber = { version = "*", features = ["env-filter"] }
