[package]
name = "forex_client"
version = "0.1.0"
edition = "2021"
publish = false

[dependencies]
async-trait = "*"
futures = "*"
serde = { version = "*", features = ["derive"] }
tokio = { version = "*", features = ["sync"] }
