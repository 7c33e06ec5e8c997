[package]
name = "now_playing"
version = "0.1.0"
edition = "2021"
publish = false

[dependencies]
serde_json = "1"
url-search-params = "*"
reqwest = { version = "0.12", default-features = false, features = ["rustls-tls"] }
tokio = { version = "1", features = ["rt-multi-thread", "macros", "net", "io-util", "time", "sync"] }
open = "5"
bytes = "1"
