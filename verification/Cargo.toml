[package]
name = "redis_async_pool"
version = "0.1.0"
edition = "2021"

[dependencies]
redis = { version = "*", features = ["tokio-comp"] }
rand = "*"
deadpool = "*"
async-trait = "*"
