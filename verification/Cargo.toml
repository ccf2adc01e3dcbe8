[package]
name = "article_scraper"
version = "0.1.0"
edition = "2021"
publish = false

[dependencies]
clap = { version = "4", features = ["derive"] }
encoding_rs = "0.8"
reqwest = { version = "0.12", default-features = false }
select = "0.6"
tokio = { version = "1", features = ["macros", "rt-multi-thread"] }
