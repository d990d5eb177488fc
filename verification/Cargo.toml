[package]
name = "blogdrown"
version = "0.1.0"
edition = "2021"
publish = false

[dependencies]
scrypt = "0.11"
rand = "0.8"
jwt = "0.16"
hmac = "0.12"
sha2 = "0.10"
chrono = { version = "0.4", features = ["serde"] }
ulid = { version = "1", features = ["serde", "uuid"] }
uuid = { version = "1", features = ["v7"] }
serde = { version = "1", features = ["derive"] }
serde_json = "1"
serde_path_to_error = "0.1"
secrecy = { version = "0.8", features = ["serde"] }
axum = "0.7"
axum-extra = { version = "0.9", features = ["cookie"] }
tokio = { version = "1", features = ["full"] }
tower-http = { version = "0.5", features = ["cors", "fs", "trace"] }
tracing = "0.1"
tracing-subscriber = "0.3"
