[package]
name = "memo_cho"
version = "0.1.0"
edition = "2021"
publish = false

[dependencies]
chrono = { version = "0.4", default-features = false, features = ["clock"] }
clap = "4"
dirs = "5"
serde = { version = "1", features = ["derive"] }
serde_yaml = "0.9"
