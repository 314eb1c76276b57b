[package]
name = "donutbot"
version = "0.1.0"
edition = "2021"
publish = false

[dependencies]
serde_json = "1"
serde = { version = "1", features = ["derive"] }
serenity = "0.11"
reqwest = { version = "0.11", default-features = false, features = ["json", "rustls-tls"] }
tokio = { version = "1", features = ["macros", "rt-multi-thread", "time", "sync"] }
chrono = "0.4"
dotenv = "0.15"
tracing = "0.1"
tracing-subscriber = "0.3"
