[package]
name = "arbitrage"
version = "0.1.0"
edition = "2021"
publish = false

[dependencies]
openlimits = "*"
tokio = { version = "*", features = ["full"] }
rust_decimal = "*"
