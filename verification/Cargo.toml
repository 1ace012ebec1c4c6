[package]
name = "rustico"
version = "0.4.0"
edition = "2021"
publish = false

[dependencies]
anyhow = "1"
axum = "0.8"
base64 = "0.22"
chrono = "0.4"
dotenvy = "0.15"
regex = "1"
reqwest = { version = "0.12", default-features = false, features = ["json", "rustls-tls"] }
rss = "2"
scraper = "*"
serde = { version = "1", features = ["derive"] }
serde_json = "1"
serde_yml = "*"
tokio = { version = "1", features = ["full"] }
tokio-cron-scheduler = "*"
tower = { version = "0.5", features = ["limit"] }
tower-http = { version = "*", features = ["trace"] }
tracing = "0.1"
tracing-subscriber = { version = "0.3", features = ["env-filter"] }
