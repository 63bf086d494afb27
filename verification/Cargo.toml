[package]
name = "door_gateway"
version = "0.1.0"
edition = "2021"
publish = false

[dependencies]
axum = "=0.7.9"
axum-macros = "=0.4.2"
chrono = { version = "=0.4.45", features = ["serde"] }
chrono-tz = "=0.9.0"
deadpool-diesel = { version = "=0.6.1", features = ["mysql", "rt_tokio_1"] }
diesel = { version = "=2.3.14", features = ["mysql", "chrono"] }
dotenvy = "=0.15.7"
env_logger = "=0.11.11"
jsonwebtoken = "=9.3.1"
log = "=0.4.34"
mysql = "=25.0.1"
rumqttc = "=0.24.0"
serde = { version = "=1.0.229", features = ["derive"] }
serde_json = "=1.0.154"
tokio = { version = "=1.54.1", features = ["full"] }
validator = { version = "=0.18.1", features = ["derive"] }

[dev-dependencies]
flume = "=0.11.1"
