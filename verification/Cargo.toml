[package]
name = "congmiao_feedbot"
version = "0.2.17"
edition = "2021"
publish = false

[dependencies]
anyhow = "=1.0.104"
async-trait = "=0.1.92"
futures-util = "=0.3.34"
hex = "=0.4.3"
html-escape = "=0.2.15"
image = { version = "=0.25.10", default-features = false, features = ["jpeg", "png", "gif", "webp"] }
qrcode = { version = "=0.14.1", default-features = false, features = ["image"] }
regex = "=1.13.1"
reqwest = { version = "=0.12.28", default-features = false, features = ["http2", "json", "rustls-tls", "stream"] }
serde = { version = "=1.0.229", features = ["derive"] }
serde_json = "=1.0.154"
sha2 = "=0.10.9"
sqlx = { version = "=0.8.6", default-features = false, features = ["runtime-tokio", "sqlite"] }
takecell = "=0.1.1"
teloxide = { version = "=0.17.0", default-features = false, features = ["ctrlc_handler", "rustls", "webhooks-axum"] }
thiserror = "=2.0.21"
tokio = { version = "=1.54.1", features = ["fs", "io-util", "macros", "process", "rt-multi-thread", "sync", "time"] }
tracing = "=0.1.44"
tracing-subscriber = { version = "=0.3.23", features = ["env-filter"] }
url = "=2.5.8"
zip = { version = "=2.6.1", default-features = false, features = ["deflate"] }
