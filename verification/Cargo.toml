[package]
name = "sitegrab"
version = "0.1.0"
edition = "2021"
publish = false

[dependencies]
attohttpc = "*"
chrono = "0.4"
chrono-english = "*"
json = "*"
scraper = "*"
serde = "1"
serde_derive = "1"
url = "*"
