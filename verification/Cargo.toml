[package]
name = "dash33"
version = "0.1.0"
edition = "2021"
publish = false

[dependencies]
axum = "0.6"
bitcoin = { version = "0.32", features = ["serde"] }
chrono = { version = "0.4", features = ["serde"] }
serde = { version = "1", features = ["derive"] }
sqlx = { version = "0.7", default-features = false, features = ["postgres", "runtime-tokio"] }
tower-http = { version = "0.4", features = ["cors"] }
tracing = "0.1"
