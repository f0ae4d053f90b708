[package]
name = "reply_dispatch"
version = "0.1.0"
edition = "2021"
publish = false

[dependencies]
serde_json = "*"
chrono = "*"
futures = "*"
rdkafka = "*"
tokio = { version = "*", features = ["macros", "rt-multi-thread"] }
