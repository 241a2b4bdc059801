[package]
name = "newsapi"
version = "0.1.0"
edition = "2021"
publish = false

[dependencies]
url = "2"
serde_json = "1"
ureq = { version = "2", default-features = false }
reqwest = { version = "0.12", default-features = false }
reqwasm = "0.5"
thiserror = "1"
