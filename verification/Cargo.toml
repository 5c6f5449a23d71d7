[package]
name = "vitanote_store"
version = "0.1.0"
edition = "2021"
publish = false

[dependencies]
rusqlite = { version = "*", features = ["bundled"] }
dirs = "*"
serde = { version = "*", features = ["derive"] }
serde_json = "*"
