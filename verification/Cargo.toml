[package]
name = "pee5"
version = "0.1.0"
edition = "2021"
publish = false

[dependencies]
regex = "1"
serde = { version = "1", features = ["derive"] }
serde_json = "1"
serenity = "0.11"
tokio = { version = "1", features = ["macros", "rt-multi-thread", "time"] }
rusqlite = { version = "*", features = ["bundled"] }
rand = "0.8"
colored = "2"
reqwest = "0.11"
rustube = "*"
openai_gpt_rs = "*"
