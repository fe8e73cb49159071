[package]
name = "weekdays"
version = "0.1.0"
edition = "2021"
publish = false

[dependencies]
bytes = "1"
chrono = { version = "0.4", default-features = false }
serde = "1"
tokio-postgres = { version = "0.7", default-features = false }
