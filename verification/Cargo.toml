[package]
name = "spot"
version = "0.1.0"
edition = "2021"
publish = false

[dependencies]
anyhow = "1"
axum = "0.6"
chrono = { version = "0.4", default-features = false, features = ["clock"] }
reqwest = "0.11"
serde = { version = "1", features = ["derive"] }
serde_json = "1"
strum_macros = "*"
tokio = { version = "1", features = ["macros", "rt-multi-thread", "sync"] }
tower-http = { version = "0.4", features = ["cors"] }
tracing = "0.1"
tracing-axiom = "*"
tracing-subscriber = { version = "0.3", features = ["env-filter"] }
