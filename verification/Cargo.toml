[package]
name = "api_tester"
version = "0.1.0"
edition = "2021"
publish = false

[dependencies]
reqwest = { version = "=0.12.28", features = ["json"] }
uuid = { version = "=1.29.0", features = ["v4"] }
serde = { version = "=1.0.229", features = ["derive"] }
serde_json = "=1.0.154"
chrono = "=0.4.45"
sqlx = { version = "=0.8.6", default-features = false, features = ["runtime-tokio", "postgres", "json", "chrono"] }
tokio = { version = "=1.54.1", features = ["process"] }
