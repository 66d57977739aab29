[package]
name = "calmcontrol"
version = "0.1.0"
edition = "2021"
publish = false

[dependencies]
axum = "0.7"
bcrypt = "0.15"
chrono = "0.4"
serde = { version = "1", features = ["derive"] }
serde_json = "1"
sqlx = { version = "0.8", default-features = false, features = ["runtime-tokio", "sqlite", "derive", "macros"] }
tokio = { version = "1", features = ["rt-multi-thread", "macros", "net"] }
tower-sessions = "0.13"
uuid = { version = "1", features = ["v4"] }
