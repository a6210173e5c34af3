[package]
name = "checkin_embedded"
version = "0.1.0"
edition = "2021"
publish = false

[dependencies]
hex = "0.4"
ed25519-dalek = "1"
crypto-hash = "0.3"
regex = "1"
chrono = "0.4"
url = "2"
serde = { version = "1", features = ["derive"] }
serde_json = "1"
reqwest = "0.9"
rand = "0.7"
rppal = "0.11"
pcsc = "2"
rocket = "0.4"
rocket_contrib = { version = "0.4", features = ["json", "tera_templates", "serve"] }
mongodb = "0.3"
wither = "0.8"
wither_derive = "0.8"
