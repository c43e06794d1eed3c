[package]
name = "shop_server"
version = "0.1.0"
edition = "2021"
publish = false

[dependencies]
anyhow = "=1.0.104"
argon2 = { version = "=0.5.3", features = ["std"] }
clap = { version = "=4.6.7", features = ["derive", "env"] }
quinn = "=0.11.12"
rcgen = "=0.14.10"
sqlx = { version = "=0.9.0", features = ["sqlite", "runtime-tokio"] }
time = "=0.3.55"
tokio = { version = "=1.54.1", features = ["full"] }
tracing = "=0.1.44"
wincode = { version = "=0.6.3", features = ["derive"] }
