[package]
name = "chitti"
version = "0.1.0"
edition = "2021"
publish = false

[dependencies]
anyhow = "*"
async-stream = "*"
async-trait = "*"
crossterm = "*"
dotenvy = "*"
futures-util = "*"
http = "*"
mime_guess = "*"
ratatui = "*"
reqwest = { version = "*", default-features = false, features = ["json", "stream", "rustls-tls"] }
serde = { version = "*", features = ["derive"] }
serde_json = "*"
thiserror = "*"
tokio = { version = "*", features = ["full"] }
tokio-util = { version = "*", features = ["codec", "io"] }
tracing = "*"
tracing-subscriber = { version = "*", features = ["env-filter"] }
uuid = { version = "*", features = ["v4"] }
