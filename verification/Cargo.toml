[package]
name = "user_api"
version = "0.1.0"
edition = "2021"
publish = false

[dependencies]
async-trait = "*"
axum = "*"
chrono = { version = "*", features = ["serde"] }
dotenvy = "*"
serde = { version = "*", features = ["derive"] }
sqlx = { version = "*", default-features = false, features = ["runtime-tokio", "postgres", "chrono", "uuid"] }
tokio = { version = "*", features = ["rt-multi-thread", "macros", "net"] }
tower-http = { version = "*", features = ["cors", "trace"] }
tracing = "*"
tracing-subscriber = { version = "*", features = ["env-filter", "fmt"] }
uuid = { version = "*", features = ["serde"] }
