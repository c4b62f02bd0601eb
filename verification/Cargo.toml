[package]
name = "complate"
version = "0.1.0"
edition = "2021"
publish = false

[dependencies]
clap = "=4.6.7"
clap_complete = "=4.6.11"
serde = { version = "1", features = ["derive"] }
serde_yaml = "0.9"
