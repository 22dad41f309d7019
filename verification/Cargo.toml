[package]
name = "newsletter"
version = "0.1.0"
edition = "2021"
publish = false

[dependencies]
anyhow = "=1.0.104"
argon2 = { version = "=0.5.3", features = ["std"] }
axum = "=0.7.9"
axum-flash = "=0.8.0"
base64 = "=0.22.1"
chrono = { version = "=0.4.45", default-features = false, features = ["clock"] }
config = { version = "=0.14.1", default-features = false, features = ["yaml"] }
lazy_static = "=1.5.1"
rand = "=0.8.8"
reqwest = { version = "=0.12.28", default-features = false, features = ["json", "rustls-tls"] }
secrecy = { version = "=0.8.0", features = ["serde"] }
serde = { version = "=1.0.229", features = ["derive"] }
serde-aux = "=4.7.0"
serde_json = "=1.0.154"
sqlx = { version = "=0.7.4", default-features = false, features = ["runtime-tokio-rustls", "macros", "postgres", "uuid", "chrono"] }
tera = { version = "=1.20.1", default-features = false }
time = "=0.3.55"
tokio = { version = "=1.54.1", features = ["macros", "rt-multi-thread", "net", "time"] }
tower-http = { version = "=0.5.2", features = ["trace"] }
tower-sessions = "=0.12.3"
tower-sessions-redis-store = "=0.12.0"
tracing = "=0.1.44"
tracing-log = "=0.2.0"
tracing-subscriber = { version = "=0.3.23", features = ["registry", "env-filter"] }
unicode-segmentation = "=1.13.3"
uuid = { version = "=1.29.0", features = ["v4", "v7", "serde"] }
validator = "=0.18.1"
