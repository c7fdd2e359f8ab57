[package]
name = "bank_core"
version = "0.1.0"
edition = "2021"
publish = false

[dependencies]
anyhow = "=1.0.104"
axum = { version = "=0.8.9", features = ["macros"] }
axum-extra = { version = "=0.12.6", features = ["with-rejection"] }
base64ct = { version = "=1.8.3", features = ["alloc"] }
bigdecimal = { version = "=0.4.11", features = ["serde-json"] }
biscuit = "=0.7.0"
chrono = "=0.4.45"
deadpool = { version = "=0.13.1", features = ["rt_tokio_1"] }
diesel = { version = "=2.3.14", features = ["sqlite"] }
diesel-async = { version = "=0.9.2", features = ["deadpool", "sqlite", "sync-connection-wrapper"] }
dotenvy = "=0.15.7"
futures-lite = "=2.6.1"
jiff = { version = "=0.2.38", features = ["serde"] }
jiff-diesel = { version = "=0.1.3", features = ["sqlite"] }
password-auth = "=1.0.0"
rand = "=0.9.5"
secrecy = "=0.10.3"
serde = { version = "=1.0.229", features = ["derive"] }
serde_json = "=1.0.154"
thiserror = "=2.0.21"
tokio = { version = "=1.54.1", features = ["full"] }
tower = { version = "=0.5.3", features = ["timeout", "util"] }
tower-http = { version = "=0.6.11", features = ["cors", "fs", "trace"] }
tracing = "=0.1.44"
tracing-subscriber = { version = "=0.3.23", features = ["env-filter"] }
url = "=2.5.8"
uuid = { version = "=1.29.0", features = ["v4", "v7", "serde"] }
