[package]
name = "mail_notifier"
version = "0.1.0"
edition = "2021"
publish = false

[dependencies]
anyhow = "1"
dotenv = "0.15"
imap = "2"
native-tls = "0.2"
serenity = { version = "0.12", default-features = false, features = ["builder", "http", "model", "rustls_backend"] }
tokio = { version = "1", features = ["macros", "rt-multi-thread", "time"] }
tracing = "0.1"
tracing-subscriber = "0.3"
