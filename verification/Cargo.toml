[package]
name = "elerem"
version = "0.1.0"
edition = "2021"
publish = false

[dependencies]
axum = { version = "0.8", features = ["ws"] }
tokio = { version = "1", features = ["full"] }
serde = { version = "1", features = ["derive"] }
serde_json = "1"
reqwest = { version = "0.12", default-features = false, features = ["http2"] }
futures-util = { version = "0.3", features = ["sink"] }
tracing = "0.1"
tracing-subscriber = { version = "0.3", features = ["env-filter"] }
tower-http = { version = "0.6", features = ["trace", "cors", "fs"] }
chrono = { version = "0.4", features = ["serde"] }
utoipa = "5"
utoipa-scalar = { version = "0.3", features = ["axum"] }
sqlx = { version = "0.8", default-features = false, features = ["postgres", "runtime-tokio", "macros"] }
