[package]
name = "ipranges"
version = "0.1.0"
edition = "2021"
publish = false

[dependencies]
sha2 = "*"
hex = "*"
uuid = { version = "*", features = ["v4"] }
serde = { version = "*", features = ["derive"] }
rocket = { version = "*", features = ["json"] }
reqwest = { version = "*", default-features = false, features = ["rustls-tls"] }
tokio = { version = "*", features = ["full"] }
async-trait = "*"
scraper = "*"
tracing = "*"
tracing-subscriber = "*"
