[package]
name = "plant_telemetry"
version = "0.1.0"
edition = "2021"
publish = false

[dependencies]
sha2 = "=0.10.9"
hex = "=0.4.3"
uuid = "=1.29.0"
serde = { version = "=1.0.229", features = ["derive"] }
serde_json = "=1.0.154"
tokio = { version = "=1.54.1", features = ["net", "sync", "time", "rt-multi-thread", "macros"] }
sqlx = { version = "=0.8.6", default-features = false, features = ["postgres", "runtime-tokio", "uuid", "json", "chrono"] }
lapin = "=2.5.5"
influxdb2 = "=0.5.2"
influxdb2-structmap = "=0.2.0"
anyhow = "=1.0.104"
tracing = "=0.1.44"
chrono = "=0.4.45"
dotenvy = "=0.15.7"
reqwest = { version = "=0.11.27", features = ["json"] }
thiserror = "=2.0.21"
async-trait = "=0.1.92"
axum = "=0.7.9"
tower-http = { version = "0.6", features = ["trace"] }
tracing-subscriber = { version = "0.3", features = ["env-filter", "json"] }
