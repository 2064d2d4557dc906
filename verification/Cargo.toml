[package]
name = "fanto"
version = "0.1.0"
edition = "2021"
publish = false

[dependencies]
zip = { version = "=8.6.0", default-features = false, features = ["deflate"] }
reqwest = { version = "=0.13.5", default-features = false }
fantoccini = { version = "=0.22.1", default-features = false }
hyper-util = { version = "=0.1.21", features = ["client-legacy"] }
serde = "=1.0.229"
serde_json = "=1.0.151"
webdriver-downloader = "=0.17.0"
