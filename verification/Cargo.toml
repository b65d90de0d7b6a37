[package]
name = "devflow"
version = "0.1.0"
edition = "2021"
publish = false

[dependencies]
regex = "=1.13.1"
urlencoding = "=2.1.3"
uuid = { version = "=1.29.0", features = ["v4"] }
chrono = { version = "=0.4.45", default-features = false, features = ["clock"] }
serde = { version = "=1.0.229", features = ["derive"] }
serde_json = "=1.0.154"
toml = "=1.1.8"
directories = "=6.0.0"
syntect = { version = "=5.3.0", default-features = false, features = ["default-fancy"] }
handlebars = "=6.4.4"
scraper = "=0.29.0"
glob = "=0.3.4"
walkdir = "=2.5.0"
reqwest = { version = "0.12", features = ["blocking", "json"] }
