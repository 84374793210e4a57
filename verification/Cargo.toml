[package]
name = "bitcoin_da"
version = "0.1.0"
edition = "2021"
publish = false

[dependencies]
tokio-util = "=0.7.19"
tokio = { version = "=1.53.2", features = ["sync", "rt-multi-thread", "macros", "time"] }
async-trait = "=0.1.92"
anyhow = "=1.0.104"
bitcoin_da_client = "=0.1.0"
serde_json = "*"

[dev-dependencies]
hex = "=0.4.3"
