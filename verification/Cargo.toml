[package]
name = "udiab_search"
version = "0.1.0"
edition = "2021"
publish = false

[dependencies]
tantivy = "=0.16.1"
cang-jie = "=0.13.0"
jieba-rs = "=0.6.8"
chrono = "*"
serde = { version = "1", features = ["derive"] }
serde_json = "1"
toml = "*"
