[package]
name = "chat_relay"
version = "0.1.0"
edition = "2021"
publish = false

[dependencies]
serde_json = "1"
serenity = "0.11"
reqwest = { version = "0.11", default-features = false, features = ["rustls-tls"] }
tokio = { version = "1", features = ["macros", "rt-multi-thread", "signal", "time"] }
dotenvy = "0.15"
tracing = "0.1"
tracing-subscriber = "0.3"
