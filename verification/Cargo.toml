[package]
name = "gemini_chat"
version = "0.1.0"
edition = "2021"
publish = false

[dependencies]
crossterm = "0.28"
dotenvy = "0.15"
ratatui = "0.28"
reqwest = { version = "0.12", default-features = false, features = ["json"] }
serde = { version = "1", features = ["derive"] }
tokio = { version = "1", features = ["rt-multi-thread", "macros", "sync", "time"] }
