[package]
name = "simple_user_settings"
version = "0.1.0"
edition = "2021"
publish = false

[dependencies]
anyhow = "1"
arc-swap = "1"
axum = "*"
sea-orm-migration = { version = "*", default-features = false }
tracing = "0.1"
