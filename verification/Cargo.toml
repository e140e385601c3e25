[package]
name = "hn_notify"
version = "0.1.0"
edition = "2021"
publish = false

[dependencies]
anyhow = "=1.0.104"
flowsnet-platform-sdk = "=0.1.6"
http_req = "=0.14.6"
log = "=0.4.34"
openai-flows = "=0.9.1"
serde = { version = "=1.0.229", features = ["derive"] }
serde_json = "=1.0.151"
takecell = "=0.1.1"
tg-flows = "=0.1.9"
tokio = { version = "=1.53.2", features = ["macros", "rt", "time"] }
web-scraper-flows = "=0.1.0"
