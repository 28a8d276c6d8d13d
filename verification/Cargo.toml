[package]
name = "status_table"
version = "0.1.0"
edition = "2021"
publish = false

[dependencies]
percent-encoding = "2"
clap = { version = "4", features = ["derive"] }

[dev-dependencies]
serde_json = "1"
