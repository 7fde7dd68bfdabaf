[package]
name = "cq_bot"
version = "0.1.0"
edition = "2021"
publish = false

[dependencies]
regex = "=1.13.1"
chrono = "=0.4.45"
rand = "=0.8.8"
serde = { version = "1", features = ["derive"] }
serde_json = "1"
toml = "0.5"
log = "0.4"
env_logger = "0.10"
tokio = { version = "1", features = ["rt-multi-thread", "macros", "sync"] }
reqwest = { version = "0.11", default-features = false, features = ["json", "rustls-tls"] }
actix-web = { version = "4", default-features = false, features = ["macros"] }
sqlx = { version = "0.6", default-features = false, features = ["sqlite", "runtime-tokio-rustls", "chrono"] }
