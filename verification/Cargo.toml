[package]
name = "product_cache"
version = "0.1.0"
edition = "2021"
publish = false

[dependencies]
actix = "*"
actix-redis = "*"
actix-web = "*"
env_logger = "*"
futures = "*"
redis-async = "*"
serde = { version = "*", features = ["derive"] }
serde_json = "*"
