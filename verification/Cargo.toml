[package]
name = "media_fetcher"
version = "0.1.0"
edition = "2021"
publish = false

[dependencies]
image = "*"
base64 = "*"
percent-encoding = "*"
mpris = "*"
tokio = { version = "*", features = ["rt", "macros", "io-std", "io-util", "time", "signal"] }
anyhow = "*"
