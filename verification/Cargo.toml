[package]
name = "reds_playground"
version = "0.1.0"
edition = "2021"
publish = false

[dependencies]
anyhow = "1"
envy = "0.4"
serde = { version = "1", features = ["derive"] }
serenity = { version = "0.12", features = ["standard_framework"] }
tokio = { version = "1", features = ["macros", "rt-multi-thread"] }
