[package]
name = "nut-monitor-web"
version = "0.1.0"
edition = "2021"
publish = false

[dependencies]
askama = "=0.12.1"
axum = "=0.7.9"
chrono = "=0.4.45"
jsonwebtoken = "=9.3.1"
reqwest = { version = "=0.12.28", default-features = false, features = ["json", "rustls-tls"] }
rusqlite = { version = "=0.31.0", features = ["bundled"] }
serde = { version = "=1.0.229", features = ["derive"] }
serde_json = "=1.0.154"
tokio = { version = "=1.54.1", features = ["full"] }
tower-http = { version = "=0.5.2", features = ["trace"] }
tracing = "=0.1.44"
tracing-subscriber = { version = "=0.3.23", features = ["env-filter"] }

[dev-dependencies]
num-bigint = "=0.4.8"
