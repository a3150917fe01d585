[package]
name = "lrcsync"
version = "0.1.0"
edition = "2021"
publish = false

[dependencies]
anyhow = "=1.0.104"
audiotags = "=0.5.0"
clap = { version = "=4.6.7", features = ["derive"] }
ignore = "=0.4.33"
mime_guess = "=2.0.5"
reqwest = { version = "=0.13.5", default-features = false, features = ["query"] }
serde = { version = "=1.0.229", features = ["derive"] }
serde_json = "=1.0.151"
tokio = { version = "=1.53.2", features = ["rt-multi-thread", "macros", "fs", "io-util"] }
