[package]
name = "playground_api"
version = "0.1.0"
edition = "2021"
publish = false

[dependencies]
actix-web = "=4.15.0"
aws-config = "=1.12.0"
aws-sdk-dynamodb = "=1.130.0"
chrono = { version = "=0.4.45", features = ["serde"] }
lambda-web = { version = "=0.2.1", features = ["actix4"] }
serde = { version = "=1.0.229", features = ["derive"] }
serde_json = "=1.0.151"
tracing = "=0.1.44"
tracing-actix-web = "=0.7.25"
utoipa = { version = "=6.0.0", features = ["actix_extras"] }
