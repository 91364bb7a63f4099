[package]
name = "lagbot"
version = "0.1.0"
edition = "2021"
publish = false

[dependencies]
hmac = "0.12"
sha2 = "0.10"
hex = "0.4"
serde = { version = "1", features = ["derive"] }
serde_json = "1"
postcard = { version = "1", features = ["alloc"] }
toml = "0.8"
anyhow = "1"
thiserror = "1"
tracing = "0.1"
tracing-subscriber = { version = "0.3", features = ["env-filter"] }
tokio = { version = "1", features = ["full"] }
reqwest = { version = "0.12", default-features = false, features = ["json", "rustls-tls"] }
axum = "0.7"
tower-http = { version = "0.5", features = ["trace"] }
jsonwebtoken = { version = "9", default-features = false }
futures-util = { version = "0.3", features = ["sink"] }
tokio-tungstenite = { version = "0.23", features = ["rustls-tls-webpki-roots"] }
simd-json = "0.13"
zenoh = { version = "1", default-features = false, features = ["transport_tcp"] }
