[package]
name = "sisr"
version = "0.1.0"
edition = "2021"
publish = false

[dependencies]
viiper-client = { version = "=0.9.0", features = ["async"] }
tokio = { version = "=1.54.1", features = ["rt-multi-thread", "sync", "time", "net", "io-util", "macros"] }
sdl3 = "0.16"
tracing = "=0.1.44"
tracing-subscriber = "=0.3.23"
anyhow = "=1.0.104"
directories = "=6.0.0"
clap = { version = "4", features = ["derive", "env"] }
figment = { version = "0.10", features = ["toml", "yaml", "json"] }
serde = { version = "1", features = ["derive"] }
