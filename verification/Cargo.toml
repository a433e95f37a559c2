[package]
name = "items_service"
version = "0.1.0"
edition = "2021"
publish = false

[dependencies]
chrono = "0.4"
mongodb = "3"
serde = { version = "1", features = ["derive"] }
axum = "0.7"
tokio = { version = "1", features = ["macros", "rt-multi-thread", "net"] }
tower-http = { version = "0.5", features = ["cors"] }
futures = "0.3"
dotenv = "0.15"
