[package]
name = "presence_bot"
version = "0.1.0"
edition = "2021"
publish = false

[dependencies]
dotenv = "0.15"
rand = "0.8"
serenity = { version = "0.11", default-features = false, features = ["client", "gateway", "rustls_backend", "model"] }
tokio = { version = "1", features = ["macros", "rt-multi-thread", "sync", "time"] }
