[package]
name = "clanker"
version = "0.1.0"
edition = "2021"
publish = false

[dependencies]
futures = "0.3"
gemini-rust = "*"
tokio = { version = "1", features = ["macros", "rt-multi-thread"] }
