[package]
name = "resume_generator"
version = "0.1.0"
edition = "2021"
publish = false

[dependencies]
chrono = "0.4"
latex = "*"
serde = { version = "1", features = ["derive"] }
serde_json = "1"
toml = "*"
clap = { version = "4", features = ["derive"] }
