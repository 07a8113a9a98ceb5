[package]
name = "qbfrt"
version = "0.1.0"
edition = "2021"
publish = false

[dependencies]
argh = "*"
chrono = "*"
directories = "*"
figlet-rs = "*"
rusqlite = "*"
serde = { version = "1", features = ["derive"] }
serde_bencode = "*"
serde_bytes = "*"
serde_rusqlite = "*"
