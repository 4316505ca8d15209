[package]
name = "backend_rspass"
version = "0.1.0"
edition = "2021"
publish = false

[dependencies]
actix-web = "*"
actix-web-httpauth = "*"
dotenv = "*"
env_logger = "*"
jsonwebtoken = { version = "=11.1.0", features = ["rust_crypto"] }
log = "*"
rusqlite = { version = "*", features = ["bundled"] }
serde = { version = "*", features = ["derive"] }
serde_json = "*"
tokio = { version = "*", features = ["rt-multi-thread", "macros", "time"] }
validator = { version = "*", features = ["derive"] }
