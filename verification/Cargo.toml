[package]
name = "skyrocket"
version = "0.1.0"
edition = "2021"
publish = false

[dependencies]
chrono = "0.4"
regex = "1"
validator = "0.16"
dotenv = "0.15"
once_cell = "1"
reqwest = { version = "0.11", default-features = false, features = ["json"] }
async-session = "3"
async-redis-session = "0.2"
serde = { version = "1", features = ["derive"] }
serde_json = "1"
