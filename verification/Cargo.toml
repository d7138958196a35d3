[package]
name = "git_viewer"
version = "0.1.0"
edition = "2021"
publish = false

[dependencies]
markdown = "*"
chrono = "*"
anyhow = "*"
axum = "*"
tokio = { version = "*", features = ["rt-multi-thread", "macros", "net"] }
tower = "*"
tower-http = { version = "*", features = ["fs", "trace"] }
sqlx = { version = "*", default-features = false, features = ["sqlite", "runtime-tokio", "macros"] }
serde = { version = "*", features = ["derive"] }
dotenv = "*"
envy = "*"
