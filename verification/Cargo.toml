[package]
name = "workflow_backend"
version = "0.1.0"
edition = "2021"
publish = false

[dependencies]
rusqlite = "*"
actix-web = "4"
actix-cors = "*"
env_logger = "*"
serde = { version = "1", features = ["derive"] }
serde_json = "1"
