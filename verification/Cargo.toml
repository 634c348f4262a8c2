[package]
name = "disco_monk"
version = "0.1.0"
edition = "2021"
publish = false

[dependencies]
serenity = "0.9"
tokio = { version = "0.2", features = ["macros", "rt-threaded"] }

[dev-dependencies]
levenshtein = "1"
