[package]
name = "qa_service"
version = "0.1.0"
edition = "2021"
publish = false

[dependencies]
uuid = "1"
axum = "0.7"
tokio = { version = "1", features = ["macros", "rt-multi-thread", "net"] }
sqlx = { version = "0.8", default-features = false, features = ["runtime-tokio", "postgres"] }
dotenvy = "0.15"
log = "0.4"
pretty_env_logger = "0.5"
async-trait = "0.1"
serde = { version = "1", features = ["derive"] }
