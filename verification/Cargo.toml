[package]
name = "tunex"
version = "0.1.0"
edition = "2021"
publish = false

[dependencies]
serde = { version = "1", features = ["derive"] }
toml = "*"
tokio = { version = "1", features = ["rt", "sync", "time", "macros"] }
zbus = "5"
mpris-server = "*"
