[package]
name = "youkoso"
version = "0.1.0"
edition = "2021"
publish = false

[dependencies]
calamine = "*"
reqwest = { version = "0.12", default-features = false, features = ["json", "rustls-tls"] }
serde = { version = "1", features = ["derive"] }
serde_json = "1"
slint = { version = "1", default-features = false, features = ["std", "compat-1-2"] }
thiserror = "*"
time = { version = "0.3", features = ["local-offset"] }
tokio = { version = "1", features = ["macros", "rt", "rt-multi-thread", "sync", "time"] }
toml = "*"
