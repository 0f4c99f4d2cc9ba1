[package]
name = "todo_service"
version = "0.1.0"
edition = "2021"
publish = false

[dependencies]
actix-web = "4"
actix-rt = "2"
deadpool-postgres = "*"
dotenv = "0.15"
serde = { version = "1", features = ["derive"] }
slog = "2"
slog-async = "2"
slog-term = "2"
tokio-pg-mapper = "*"
tokio-pg-mapper-derive = "*"
tokio-postgres = "0.7"
