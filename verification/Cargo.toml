[package]
name = "backup_cron"
version = "0.1.0"
edition = "2021"
publish = false

[dependencies]
chrono = "*"
tokio = { version = "*", features = ["macros", "rt-multi-thread", "process", "fs", "time"] }
async-trait = "*"
futures = "*"
clap = { version = "*", features = ["derive"] }
dotenvy = "*"
serde = { version = "*", features = ["derive"] }
serde_json = "*"
toml = "*"
tracing = "*"
tracing-appender = "*"
tracing-subscriber = { version = "*", features = ["env-filter"] }
redis = { version = "*", features = ["tokio-comp"] }
