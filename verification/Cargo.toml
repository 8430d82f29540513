[package]
name = "tg_assistant"
version = "0.1.0"
edition = "2021"
publish = false

[dependencies]
chrono = { version = "=0.4.45", default-features = false, features = ["clock", "std", "serde"] }
serde = { version = "=1.0.229", features = ["derive"] }
log = "=0.4.35"
pretty_env_logger = "=0.5.0"
dotenvy = "=0.15.7"
tokio = { version = "=1.54.1", features = ["macros", "rt-multi-thread"] }
reqwest = { version = "=0.12.28", default-features = false, features = ["json", "rustls-tls"] }
sqlx = { version = "=0.8.6", default-features = false, features = ["runtime-tokio", "sqlite", "chrono"] }
teloxide = { version = "=0.13.0", default-features = false, features = ["ctrlc_handler", "rustls"] }
takecell = "=0.1.1"
