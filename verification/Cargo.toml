[package]
name = "sentry_tide"
version = "0.1.0"
edition = "2021"
publish = false

[dependencies]
anyhow = "=1.0.104"
async-trait = "=0.1.92"
sentry-anyhow = "=0.49.3"
sentry-core = { version = "=0.49.3", features = ["client"] }
tide = "=0.16.0"
