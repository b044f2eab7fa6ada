[package]
name = "chartex-radio"
version = "0.1.0"
edition = "2021"
publish = false

[dependencies]
anyhow = "1"
argh = "0.1"
axum = "0.6"
axum-auth = "0.4"
axum-macros = "0.3"
chrono = "0.4"
dotenvy = "0.15"
duct = "0.13"
futures-util = "0.3"
log = "0.4"
log4rs = "1"
m3u8-rs = "5"
reqwest = { version = "0.11", features = ["json", "stream"] }
serde = { version = "1", features = ["derive"] }
serde_json = "1"
tokio = { version = "1", features = ["full"] }
toml = "0.8"
tracing = "0.1"
tracing-subscriber = { version = "0.3", features = ["env-filter"] }
url = "2"
