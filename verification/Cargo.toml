[package]
name = "race_bot"
version = "0.1.0"
edition = "2021"
publish = false

[dependencies]
dotenv = "0.15"
lazy_static = "1"
ordinal = "*"
serenity = { version = "0.12", default-features = false, features = ["client", "gateway", "model", "http", "framework", "standard_framework", "rustls_backend"] }
tokio = { version = "1", features = ["rt-multi-thread"] }
