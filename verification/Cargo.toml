[package]
name = "mini-temporal"
version = "0.1.0"
edition = "2021"
publish = false

[dependencies]
uuid = { version = "1", features = ["v4"] }
serde = { version = "1", features = ["derive"] }
serde_json = "1"
anyhow = "1"
axum = "0.8"
tokio = { version = "1", features = ["full"] }
tonic = "*"
tower-http = { version = "*", features = ["fs"] }
tracing = "0.1"
tracing-subscriber = { version = "0.3", features = ["env-filter"] }
url = "2"
temporalio-client = "*"
temporalio-common = "*"
temporalio-macros = "*"
temporalio-sdk = "*"
temporalio-sdk-core = "*"
