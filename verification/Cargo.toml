[package]
name = "faceit_link"
version = "0.1.0"
edition = "2021"
publish = false

[dependencies]
anyhow = "1"
libsql = { version = "*", default-features = false, features = ["remote", "tls"] }
poise = "0.6"
regex = "1"
reqwest = { version = "0.12", default-features = false, features = ["rustls-tls"] }
serde = { version = "1", features = ["derive"] }
serde_json = "1"
shuttle-runtime = "*"
shuttle-serenity = "*"
tokio = { version = "1", features = ["rt-multi-thread", "time", "macros"] }
tracing = "0.1"
