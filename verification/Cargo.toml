[package]
name = "inline_cards"
version = "0.1.0"
edition = "2021"
publish = false

[dependencies]
qstring = "*"
futures = "*"
reqwest = { version = "*", features = ["json"] }
serde = { version = "*", features = ["derive"] }
telegram-bot = "*"
tokio = { version = "*", features = ["macros", "rt-multi-thread"] }
