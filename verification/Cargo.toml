[package]
name = "huemidity"
version = "0.1.0"
edition = "2021"
publish = false

[dependencies]
auto-launch = "0.6.0"
chrono = "0.4.45"
directories = "6.0.0"
midir = "0.11.1"
reqwest = { version = "0.12.28", default-features = false, features = ["json", "rustls-tls"] }
serde = { version = "1.0.229", features = ["derive"] }
serde_json = "1.0.154"
tokio = { version = "1.54.1", features = ["rt-multi-thread", "macros", "sync", "time"] }
