[package]
name = "music_chat"
version = "0.1.0"
edition = "2021"
publish = false

[dependencies]
dotenv = "0.15"
miette = "7"
reqwest = { version = "0.12", features = ["json"] }
rustyline = "14"
serde = { version = "1", features = ["derive"] }
serde_json = "1"
tokio = { version = "1", features = ["macros", "rt-multi-thread"] }
