[package]
name = "batgpt"
version = "0.1.0"
edition = "2021"
publish = false

[dependencies]
scraper = "*"
clap = "4"
confy = "*"
openai = "*"
reqwest = { version = "0.11", features = ["cookies"] }
serde = { version = "1", features = ["derive"] }
tokio = { version = "1", features = ["macros", "rt-multi-thread"] }
