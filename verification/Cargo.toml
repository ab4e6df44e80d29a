[package]
name = "auth_core"
version = "0.1.0"
edition = "2021"
publish = false

[dependencies]
argon2 = "=0.6.0"
jsonwebtoken = { version = "=11.1.0", default-features = false, features = ["rust_crypto"] }
uuid = { version = "=1.27.0", features = ["v4"] }
validator = "=0.21.0"
chrono = { version = "=0.4.45", default-features = false, features = ["clock"] }
serde = { version = "=1.0.229", features = ["derive"] }
serde_json = "=1.0.151"
axum = "=0.8.9"
axum-extra = { version = "=0.12.6", features = ["cookie"] }
tokio = { version = "=1.53.2", features = ["rt-multi-thread", "net", "macros"] }
sqlx = { version = "=0.8.6", default-features = false, features = ["runtime-tokio-rustls", "postgres", "chrono", "uuid"] }
lettre = "=0.11.23"
cookie = "=0.18.2"
time = "=0.3.55"
tower-http = { version = "*", features = ["cors"] }
