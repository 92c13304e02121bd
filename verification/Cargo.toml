[package]
name = "portfolio_api"
version = "0.1.0"
edition = "2021"
publish = false

[dependencies]
serde = { version = "1", features = ["derive"] }
serde_json = "1"
jsonwebtoken = { version = "10", features = ["rust_crypto"] }
actix-web = "4"
actix-cors = "0.7"
aws-config = "1"
aws-sdk-dynamodb = "1"
aws-sdk-secretsmanager = "1"
serde_dynamo = { version = "4", features = ["aws-sdk-dynamodb+1"] }
thiserror = "2"
anyhow = "1"
tokio = { version = "1", features = ["sync", "macros", "rt-multi-thread"] }
tracing = "0.1"
tracing-subscriber = { version = "0.3", features = ["env-filter", "json"] }
tracing-appender = "0.2"
reqwest = { version = "0.12", default-features = false, features = ["json", "rustls-tls"] }
time = "0.3"
config = { version = "0.15", default-features = false, features = ["toml"] }
