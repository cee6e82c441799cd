[package]
name = "chat2db_storage"
version = "0.1.0"
edition = "2021"
publish = false

[dependencies]
directories = "*"
fs2 = "*"
prost = "*"
rusqlite = { version = "*", features = ["bundled"] }
serde_json = "*"
sha2 = "0.10"
thiserror = "*"
uuid = { version = "1", features = ["v4"] }
zeroize = "1"
