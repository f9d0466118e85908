[package]
name = "rrr"
version = "0.1.0"
edition = "2021"
publish = false

[dependencies]
clap = { version = "4", features = ["derive"] }
hex = "0.4"
indicatif = "0.17"
reqwest = "0.12"
sha2 = "0.10"
tokio = { version = "1", features = ["full"] }
url = "2"
