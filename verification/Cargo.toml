[package]
name = "patient_zero"
version = "0.1.0"
edition = "2021"
publish = false

[dependencies]
color-eyre = "0.6"
poise = "0.6"
serde = { version = "1", features = ["derive"] }
serenity = "0.12"
sqlx = { version = "0.8", default-features = false, features = ["runtime-tokio", "sqlite"] }
tokio = { version = "1", features = ["macros", "rt-multi-thread", "sync"] }
toml = "0.8"
tracing = "0.1"
tracing-subscriber = { version = "0.3", features = ["env-filter"] }
