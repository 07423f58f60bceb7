[package]
name = "philomena_scraper"
version = "0.1.0"
edition = "2021"
publish = false

[dependencies]
anyhow = "=1.0.104"
axum = "=0.7.9"
better-panic = "=0.3.0"
envconfig = "=0.11.1"
futures = "=0.3.34"
hickory-resolver = "0.24"
hmac = "=0.12.1"
itertools = "=0.12.1"
kankyo = "=0.3.0"
moka = { version = "=0.12.16", features = ["future"] }
radix_fmt = "=1.0.0"
regex = "=1.13.1"
reqwest = { version = "=0.12.28", default-features = false, features = ["cookies", "json", "rustls-tls", "socks"] }
reqwest-middleware = "0.4"
reqwest-tracing = "0.5"
securefmt = "=0.1.5"
serde = { version = "=1.0.229", features = ["derive"] }
serde_json = "=1.0.154"
sha1 = "=0.10.7"
tokio = { version = "=1.54.1", features = ["full"] }
tracing = "=0.1.44"
tracing-subscriber = "=0.3.23"
twitter-v2 = { version = "=0.1.8", default-features = false, features = ["rustls-tls"] }
url = "=2.5.8"
