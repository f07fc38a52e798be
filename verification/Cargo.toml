[package]
name = "wut_jwc"
version = "0.1.0"
edition = "2021"
publish = false

[dependencies]
digest = "0.8"
md-5 = "0.8"
sha-1 = "0.8"
rand = "0.7"
scraper = "*"
reqwest = { version = "0.9", default-features = false }
