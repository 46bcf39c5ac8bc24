[package]
name = "harborz"
version = "0.1.0"
edition = "2021"
publish = false

[dependencies]
url = "2"
scraper = "*"
serde = { version = "1", features = ["derive"] }
serde_json = "1"
walkdir = "2"
reqwest = { version = "*", default-features = false, features = ["json"] }
async-std = "1"
futures = "0.3"
bytes = "1"
anyhow = "1"
log = "0.4"
id3 = "*"
