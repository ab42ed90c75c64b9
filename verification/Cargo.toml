[package]
name = "automate"
version = "0.1.0"
edition = "2021"
publish = false

[dependencies]
shakmaty = "=0.29.4"
rand = "=0.10.3"
serde = { version = "=1.0.229", features = ["derive"] }
serde_json = "=1.0.154"
uuid = { version = "=1.29.1", features = ["v4", "v7", "serde"] }
chrono = { version = "=0.4.45", features = ["serde"] }
tokio = { version = "=1.54.1", features = ["full"] }
tokio-stream = "=0.1.19"
redis = { version = "=1.8.1", features = ["aio", "tokio-comp"] }
sqlx = { version = "=0.9.0", default-features = false, features = ["runtime-tokio", "sqlite", "uuid", "chrono", "migrate", "macros"] }
axum = "=0.8.9"
axum-extra = { version = "=0.12.6", features = ["cookie"] }
reqwest = { version = "=0.13.5", default-features = false, features = ["json"] }
dotenvy = "=0.15.7"
