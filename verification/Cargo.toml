[package]
name = "token_prices"
version = "0.1.0"
edition = "2021"
publish = false

[dependencies]
csv = "1"
serde_json = "1"
reqwest = { version = "0.11", features = ["json"] }
tokio = { version = "1", features = ["macros", "rt-multi-thread"] }
