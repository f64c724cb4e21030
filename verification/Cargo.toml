[package]
name = "bing_wallpaper"
version = "0.1.0"
edition = "2021"
publish = false

[dependencies]
bytes = "1"
html_parser = "*"
reqwest = { version = "0.11", features = ["blocking"] }
serde = { version = "1", features = ["derive"] }
serde_json = "1"
structopt = "0.3"
url = "2"
