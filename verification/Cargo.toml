[package]
name = "xecut_bot"
version = "0.1.0"
edition = "2021"
publish = false

[dependencies]
anyhow = "=1.0.104"
axum = "=0.8.9"
chrono = { version = "=0.4.45", features = ["unstable-locales"] }
chrono-tz = "=0.10.4"
clap = { version = "=4.6.7", features = ["derive"] }
config = "=0.15.27"
dptree = "=0.5.1"
futures = "=0.3.34"
itertools = "=0.15.0"
log = "=0.4.34"
pretty_env_logger = "=0.5.0"
serde = { version = "=1.0.229", features = ["derive"] }
serde_derive = "1"
sqlx = { version = "=0.8.6", default-features = false, features = ["sqlite", "runtime-tokio", "migrate"] }
takecell = "<0.1.2"
teloxide = { version = "=0.17.0", features = ["macros"] }
tokio = { version = "=1.54.1", features = ["full"] }
tokio-util = "=0.7.20"
tower-http = { version = "=0.7.1", features = ["catch-panic"] }
