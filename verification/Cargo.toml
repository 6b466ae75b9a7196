[package]
name = "tweets_to_discord"
version = "0.1.0"
edition = "2021"
publish = false

[dependencies]
egg-mode = { version = "0.16", default-features = false, features = ["rustls"] }
env_logger = "0.9"
futures = "0.3"
log = "0.4"
serde = { version = "1", features = ["derive"] }
serde_yaml = "0.8"
serenity = { version = "0.10", default-features = false, features = ["builder", "cache", "client", "gateway", "model", "http", "rustls_backend"] }
tokio = { version = "1", features = ["macros", "rt-multi-thread"] }
