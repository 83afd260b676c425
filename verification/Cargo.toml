[package]
name = "openhwy_tms"
version = "0.1.0"
edition = "2021"
publish = false

[dependencies]
uuid = { version = "1", features = ["v4", "serde"] }
chrono = { version = "0.4", features = ["serde"] }
serde = { version = "1", features = ["derive"] }
serde_json = "1"
thiserror = "1"
actix-web = "4"
actix-cors = "0.7"
sqlx = { version = "0.7", features = ["postgres", "runtime-tokio-rustls", "uuid", "chrono", "json"] }
dotenv = "0.15"
deadpool-redis = "0.14"
tracing-subscriber = "0.3"
