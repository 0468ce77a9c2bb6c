[package]
name = "stockscan"
version = "0.1.0"
edition = "2021"
publish = false

[dependencies]
scraper = "*"
xcss = "*"
reqwest = { version = "*", default-features = false, features = ["blocking"] }
