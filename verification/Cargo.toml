[package]
name = "playlist_downloader"
version = "0.1.0"
edition = "2021"
publish = false

[dependencies]
bytes = "=1.12.1"
chrono = "=0.4.45"
futures = "=0.3.34"
indicatif = "=0.17.11"
reqwest = { version = "=0.12.28", features = ["blocking", "stream"] }
tokio = { version = "=1.54.1", features = ["macros", "rt-multi-thread"] }
zip = { version = "=0.6.6", default-features = false }
zip-extract = "=0.1.3"
