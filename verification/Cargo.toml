[package]
name = "users_backend"
version = "0.1.0"
edition = "2021"
publish = false

[dependencies]
actix-web = { version = "4", default-features = false, features = ["macros"] }
deadpool-postgres = "*"
tokio-postgres = "*"
serde = { version = "1", features = ["derive"] }
serde_json = "1"
log = "*"
env_logger = "*"
