[package]
name = "biotonic_server"
version = "0.1.0"
edition = "2021"
publish = false

[dependencies]
tokio = { version = "*", features = ["full"] }
redis = { version = "*", features = ["tokio-comp"] }
sqlx = { version = "*", default-features = false, features = ["postgres", "runtime-tokio", "uuid", "chrono", "macros"] }
serde = { version = "*", features = ["derive"] }
serde_json = "*"
uuid = { version = "*", features = ["v4", "serde"] }
chrono = { version = "*", features = ["serde"] }
dotenvy = "*"
env_logger = "*"
log = "*"
once_cell = "*"
dashmap = "*"
