[package]
name = "secure_share"
version = "0.1.0"
edition = "2021"
publish = false

[dependencies]
aes = "0.7.5"
argon2 = "0.5"
async-trait = "0.1"
axum = { version = "0.7", features = ["multipart"] }
axum-extra = { version = "0.9", features = ["cookie"] }
base64 = "0.22"
block-modes = "0.8.1"
chrono = { version = "0.4", features = ["serde"] }
dotenv = "0.15"
jsonwebtoken = "9"
rand = "0.8"
rsa = "0.9"
serde = { version = "1", features = ["derive"] }
serde_json = "1"
sqlx = { version = "0.8", default-features = false, features = ["runtime-tokio", "postgres", "chrono", "uuid", "derive"] }
time = "0.3"
tokio = { version = "1", features = ["full"] }
tokio-cron-scheduler = "0.13"
tower-http = { version = "0.5", features = ["cors", "trace"] }
tracing-subscriber = "0.3"
uuid = { version = "1", features = ["v4", "serde"] }
validator = { version = "0.16", features = ["derive"] }
