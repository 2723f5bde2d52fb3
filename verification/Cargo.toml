[package]
name = "gas_price_core"
version = "0.1.0"
edition = "2021"
publish = false

[dependencies]
dashmap = "*"
hex = "*"
tokio = { version = "*", features = ["rt", "rt-multi-thread", "sync", "macros", "time"] }
async-trait = "*"
