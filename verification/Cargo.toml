[package]
name = "rustdesk_update_api"
version = "0.1.0"
edition = "2021"
publish = false

[dependencies]
semver = "1"
serde = { version = "1", features = ["derive"] }
axum = "0.7"
tokio = { version = "1", features = ["macros", "rt-multi-thread", "net"] }
reqwest = { version = "0.12", default-features = false, features = ["json"] }
dotenv = "0.15"
env_logger = "0.11"
log = "0.4"
once_cell = "1"
