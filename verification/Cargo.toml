[package]
name = "oracle_system"
version = "0.1.0"
edition = "2021"
publish = false

[dependencies]
anyhow = "1"
chrono = "0.4"
dotenv = "0.15"
env_logger = "0.10"
log = "0.4"
redis = { version = "0.27", default-features = false, features = ["tokio-comp"] }
serde = { version = "1", features = ["derive"] }
serde_json = "1"
sqlx = { version = "0.7", default-features = false, features = ["runtime-tokio", "postgres", "chrono"] }
tokio = { version = "1", features = ["full"] }
warp = { version = "0.3", default-features = false }
