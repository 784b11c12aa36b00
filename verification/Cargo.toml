[package]
name = "web_chess"
version = "0.1.0"
edition = "2021"
publish = false

[dependencies]
tokio = { version = "=1.53.2", features = ["sync", "rt-multi-thread", "macros"] }
rand = "=0.8.8"
axum = { version = "=0.6.20", features = ["ws"] }
futures = "=0.3.34"
serde = { version = "=1.0.229", features = ["derive"] }
anyhow = "=1.0.104"
