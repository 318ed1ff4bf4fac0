[package]
name = "poucet"
version = "0.1.0"
edition = "2021"
publish = false

[dependencies]
config = "=0.13.4"
derivative = "=2.2.0"
poise = "0.5"
redis = "=0.22.4"
serde = { version = "1", features = ["derive"] }
serenity = "=0.11.7"
tokio = { version = "1", features = ["macros", "rt-multi-thread"] }
tracing = "0.1"
tracing-subscriber = "0.3"
