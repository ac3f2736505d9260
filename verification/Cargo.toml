[package]
name = "cost_ledger"
version = "0.1.0"
edition = "2021"
publish = false

[dependencies]
anyhow = "*"
calamine = "*"
chrono = "*"
serde = { version = "*", features = ["derive"] }
