[package]
name = "feedparq"
version = "0.1.0"
edition = "2021"
publish = false

[dependencies]
anyhow = "*"
chrono = "*"
feed-rs = "*"
futures = "*"
polars = { version = "*", default-features = false, features = ["lazy", "parquet"] }
reqwest = { version = "*", default-features = false, features = ["rustls-tls"] }
tokio = { version = "*", features = ["rt-multi-thread", "macros"] }
url = "*"
