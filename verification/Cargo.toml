[package]
name = "date_nick"
version = "0.1.0"
edition = "2021"
publish = false

[dependencies]
chrono = "0.4"
serenity = "0.12"
tokio = { version = "1", features = ["macros", "rt-multi-thread", "time"] }
tracing = "0.1"
tracing-subscriber = "0.3"
