[package]
name = "avoindata"
version = "0.1.0"
edition = "2021"
publish = false

[dependencies]
serde_json = "1"
reqwest = { version = "0.12", default-features = false }
tokio = { version = "1", default-features = false, features = ["rt", "macros"] }
