[package]
name = "etherscan"
version = "0.1.0"
edition = "2021"
publish = false

[dependencies]
futures = "0.3"
reqwest = { version = "0.11", default-features = false }
serde = { version = "1", features = ["derive"] }
web3 = { version = "0.19", default-features = false }
