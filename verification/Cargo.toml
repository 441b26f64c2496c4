[package]
name = "meilisearch_wrapper"
version = "0.1.0"
edition = "2021"
publish = false

[dependencies]
axum = "0.8"
bytes = "1"
env_logger = "0.11"
http-body-util = "0.1"
log = "0.4"
reqwest = { version = "0.12", default-features = false, features = ["blocking", "json", "rustls-tls"] }
serde = { version = "1", features = ["derive"] }
serde_json = "1"
tokio = { version = "1", features = ["macros", "net", "rt-multi-thread", "time"] }
tracing = "0.1"
tracing-subscriber = { version = "0.3", features = ["env-filter", "json"] }
