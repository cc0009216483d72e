[package]
name = "scrapperino"
version = "0.1.0"
edition = "2021"
publish = false

[dependencies]
futures = "0.3"
log = "0.4"
reqwest = "*"
scraper = "*"
simplelog = "*"
thiserror = "*"
tokio = { version = "1", features = ["macros", "rt-multi-thread"] }
