[package]
name = "anilist_lookup"
version = "0.1.0"
edition = "2021"
publish = false

[dependencies]
num-format = "0.4"
reqwest = { version = "0.11", features = ["json"] }
serde_json = "1"
tokio = { version = "1", features = ["rt"] }
tokio-postgres = "0.7"
tracing = "0.1"
