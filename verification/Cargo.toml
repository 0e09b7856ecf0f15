[package]
name = "vpn_bot_tg"
version = "0.1.0"
edition = "2021"
publish = false

[dependencies]
axum = "=0.8.9"
chrono = "=0.4.45"
dotenvy = "=0.15.7"
reqwest = { version = "=0.12.28", default-features = false, features = ["json", "rustls-tls"] }
serde = { version = "=1.0.229", features = ["derive"] }
serde_json = "=1.0.154"
sha2 = "=0.10.9"
sqlx = { version = "=0.8.6", default-features = false, features = ["runtime-tokio", "postgres", "chrono", "macros", "migrate"] }
# Not used directly: teloxide-core depends on takecell, whose 0.1.2 release
# requires a newer Rust compiler than the one this crate is built with.
takecell = "=0.1.1"
teloxide = { version = "=0.13.0", default-features = false, features = ["macros", "rustls", "ctrlc_handler"] }
tokio = { version = "=1.54.1", features = ["macros", "rt-multi-thread", "net", "time", "signal"] }
tracing = "=0.1.44"
tracing-subscriber = { version = "=0.3.23", features = ["env-filter"] }
