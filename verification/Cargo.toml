[package]
name = "poolwatch"
version = "0.1.0"
edition = "2021"
publish = false

[dependencies]
ethers = "1.0"
hex = "0.4"
url = "2"
serde_json = "1"
clap = { version = "4", features = ["derive"] }
tokio = { version = "1", features = ["macros", "rt-multi-thread"] }
