[package]
name = "oxford_lookup"
version = "0.1.0"
edition = "2021"
publish = false

[dependencies]
scraper = "*"
reqwest = "*"
tokio = { version = "*", features = ["macros", "rt-multi-thread"] }
loggit = "*"
