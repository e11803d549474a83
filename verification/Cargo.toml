[package]
name = "news_reader"
version = "0.1.0"
edition = "2021"
publish = false

[dependencies]
colored = "*"
rss = "*"
console = "*"
dialoguer = "*"
reqwest = { version = "*", features = ["blocking"] }
