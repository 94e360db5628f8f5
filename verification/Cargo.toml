[package]
name = "db_manager"
version = "0.1.0"
edition = "2021"
publish = false

[dependencies]
sled = "0.34"
uuid = { version = "1", features = ["v4"] }
bincode = "1"
serde = "1"
