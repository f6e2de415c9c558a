[package]
name = "railan"
version = "0.1.0"
edition = "2021"
publish = false

[dependencies]
crossbeam = "0.8"
crossterm = "0.25"
serde = { version = "1", features = ["derive"] }
serde_json = "1"
serde_with = "2"
tui = "0.19"
