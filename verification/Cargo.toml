[package]
name = "micro_chat_server"
version = "0.1.0"
edition = "2021"
publish = false

[dependencies]
regex = "1"
uuid = { version = "1", features = ["v4"] }
serde = { version = "1", features = ["derive"] }
serde_json = "1"
sea-orm = { version = "0.12", default-features = false, features = ["runtime-tokio-rustls", "sqlx-mysql", "macros"] }
tokio = { version = "1", features = ["macros", "rt-multi-thread"] }
task-local-extensions = "0.1"
