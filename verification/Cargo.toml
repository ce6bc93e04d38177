[package]
name = "datagen_tui"
version = "0.1.0"
edition = "2021"
publish = false

[dependencies]
tokio = { version = "*", features = ["sync", "process", "io-util", "macros", "rt-multi-thread"] }
crossterm = "*"
ratatui = "*"
serde = { version = "*", features = ["derive"] }
serde_json = "*"
dotenv = "*"
