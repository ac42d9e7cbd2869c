[package]
name = "bidder_core"
version = "0.1.0"
edition = "2021"
publish = false

[dependencies]
anyhow = "1"
arc-swap = "1"
async-trait = "0.1"
dashmap = "6"
figment = { version = "0.10", features = ["toml", "env"] }
metrics = "0.24"
metrics-exporter-prometheus = { version = "0.16", default-features = false, features = ["http-listener"] }
moka = { version = "0.12", features = ["future"] }
ndarray = "0.16"
notify = { version = "8", default-features = false }
opentelemetry = { version = "0.29", default-features = false, features = ["trace"] }
opentelemetry-otlp = { version = "0.29", default-features = false, features = ["trace", "http-proto", "reqwest-client"] }
opentelemetry_sdk = { version = "0.29", default-features = false, features = ["trace"] }
opentelemetry-semantic-conventions = "0.29"
ort = { version = "=2.0.0-rc.10", default-features = false, features = ["std", "ndarray", "load-dynamic"] }
reqwest = { version = "0.12", default-features = false }
roaring = "0.10"
serde = { version = "1", features = ["derive"] }
serde_json = "1"
simd-json = { version = "0.15", default-features = false, features = ["serde_impl"] }
sqlx = { version = "0.8", default-features = false, features = ["runtime-tokio", "postgres", "derive"] }
thiserror = "2"
tokio = { version = "1", features = ["rt", "rt-multi-thread", "macros", "sync", "time"] }
tracing = "0.1"
tracing-opentelemetry = { version = "0.30", default-features = false }
tracing-subscriber = { version = "0.3", features = ["json", "env-filter"] }
