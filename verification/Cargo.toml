[package]
name = "gio_bot"
version = "0.1.0"
edition = "2021"
publish = false

[dependencies]
urlencoding = "2"
serenity = { version = "0.10", features = ["unstable_discord_api"] }
sqlx = { version = "0.5", default-features = false, features = ["sqlite", "runtime-tokio-rustls"] }
reqwest = { version = "0.11", default-features = false, features = ["json", "rustls-tls"] }
tokio = { version = "1", features = ["macros", "rt-multi-thread"] }
serde = { version = "1", features = ["derive"] }
serde_json = "1"
futures = "0.3"
lazy_static = "1"
async_once = "0.2"
