[package]
name = "auth_service"
version = "0.1.0"
edition = "2021"
publish = false

[dependencies]
anyhow = "=1.0.104"
chrono = { version = "=0.4.45", features = ["serde"] }
dotenv = "=0.15.0"
jsonwebtoken = "=9.3.1"
log = "=0.4.35"
scrypt = "=0.11.0"
serde = { version = "=1.0.229", features = ["derive"] }
serde_json = { version = "=1.0.154", features = ["preserve_order"] }
sqlx = { version = "=0.8.6", default-features = false, features = ["postgres", "runtime-tokio", "uuid", "chrono"] }
thiserror = "=1.0.69"
tokio = { version = "=1.54.1", features = ["full"] }
uuid = { version = "=1.29.1", features = ["v4", "serde"] }
warp = "=0.3.7"
