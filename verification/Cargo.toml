[package]
name = "whois_service"
version = "0.1.0"
edition = "2021"
publish = false

[dependencies]
chrono = "0.4"
publicsuffix = "2"
url = "2"
serde = { version = "1", features = ["derive"] }
serde_json = "1"
tokio = { version = "1", features = ["full"] }
reqwest = { version = "0.12", default-features = false, features = ["json", "gzip"] }
moka = { version = "0.12", features = ["future"] }
axum = "0.7"
tower = "0.4"
tower-http = { version = "0.5", features = ["cors", "trace", "compression-gzip"] }
tracing = "0.1"
tracing-subscriber = { version = "0.3", features = ["env-filter"] }
thiserror = "1"
once_cell = "1"
config = { version = "0.14", default-features = false }
metrics = "0.23"
metrics-exporter-prometheus = { version = "0.15", default-features = false }
regex = "1"
