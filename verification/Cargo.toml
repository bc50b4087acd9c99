[package]
name = "vulnfeed"
version = "0.1.0"
edition = "2021"
publish = false

[dependencies]
dashmap = "*"
chrono = "*"
uuid = "*"
nutype = { version = "*", features = ["serde"] }
serde = { version = "*", features = ["derive"] }
serde_json = "*"
sea-query = "*"
modql = "*"
sqlx = { version = "*", default-features = false, features = ["runtime-tokio", "postgres", "chrono", "macros"] }
tokio = { version = "*", features = ["full"] }
tokio-cron-scheduler = "*"
async-trait = "*"
lazy_static = "*"
log = "*"
mea = "*"
error-stack = "*"
reqwest = { version = "*", default-features = false, features = ["json", "rustls-tls"] }
