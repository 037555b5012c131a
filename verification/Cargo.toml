[package]
name = "scraper_core"
version = "0.1.0"
edition = "2021"
publish = false

[dependencies]
log = "0.4"
serde_json = "=1.0.154"
tauri = { version = "2", default-features = false, features = ["wry"] }
url = "=2.5.8"
