[package]
name = "db_wrapper"
version = "0.1.0"
edition = "2021"
publish = false

[dependencies]
serde = { version = "1", features = ["derive"] }
serde_json = "1"
bincode = "1.3"
base64 = "0.22"
thiserror = "2"
rusqlite = { version = "0.32", features = ["bundled"] }
