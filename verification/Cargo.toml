[package]
name = "ndc_dynamodb"
version = "0.1.0"
edition = "2021"
publish = false

[dependencies]
anyhow = "=1.0.104"
async-trait = "=0.1.92"
aws-config = "1"
aws-sdk-dynamodb = "1"
base64 = "=0.22.1"
bytes = "=1.12.1"
indexmap = { version = "=2.14.2", features = ["serde"] }
multimap = "=0.10.1"
prometheus = "=0.13.4"
schemars = "=0.8.22"
serde = { version = "=1.0.229", features = ["derive"] }
serde_json = "=1.0.154"
thiserror = "=1.0.69"
tokio = { version = "=1.54.1", features = ["full"] }
tracing = "=0.1.44"
