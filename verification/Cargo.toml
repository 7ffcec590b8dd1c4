[package]
name = "chat_server"
version = "0.1.0"
edition = "2021"
publish = false

[dependencies]
anyhow = "=1.0.104"
argon2 = "=0.6.0"
axum = "=0.8.9"
chrono = { version = "=0.4.45", features = ["serde"] }
jwt-simple = { version = "=0.15.0", default-features = false, features = ["pure-rust"] }
serde = { version = "=1.0.229", features = ["derive"] }
sqlx = { version = "=0.9.0", default-features = false, features = ["postgres", "runtime-tokio", "derive", "chrono"] }
thiserror = "=2.0.21"
tokio = { version = "=1.54.1", features = ["rt-multi-thread", "macros", "net", "time"] }
tower = "=0.5.3"
tracing = "=0.1.44"
tracing-subscriber = "=0.3.23"
