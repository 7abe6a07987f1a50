[package]
name = "bookshelf"
version = "0.1.0"
edition = "2021"
publish = false

[dependencies]
chrono = { version = "0.4", features = ["serde"] }
directories = "5"
log = "0.4"
rusqlite = { version = "0.29", features = ["bundled"] }
rusqlite_migration = "1.0"
serde = { version = "1", features = ["derive"] }
serde_json = "1"
simplelog = "0.12"
